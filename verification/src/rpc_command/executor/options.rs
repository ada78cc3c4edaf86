//! Configuration of an executor.

use vstd::prelude::*;
use vstd::string::StringExecFns;

use crate::text::{self, clone_opt, clone_pairs};

verus! {

/// Command Executor Options struct
#[derive(Debug)]
pub struct Options {
    /// Topic pattern for the command request.
    pub request_topic_pattern: String,
    /// Command name if required by the topic pattern
    pub command_name: String,
    /// Optional Topic namespace to be prepended to the topic pattern
    pub topic_namespace: Option<String>,
    /// Topic token keys/values to be permanently replaced in the topic pattern
    pub topic_token_map: Vec<(String, String)>,
    /// Denotes if commands are idempotent
    pub is_idempotent: bool,
    /// Service group ID
    pub service_group_id: Option<String>,
}

/// What [`Options`] stand for.
#[verifier::ext_equal]
pub struct OptionsView {
    pub request_topic_pattern: Seq<char>,
    pub command_name: Seq<char>,
    pub topic_namespace: Option<Seq<char>>,
    pub topic_token_map: Seq<text::Pair>,
    pub is_idempotent: bool,
    pub service_group_id: Option<Seq<char>>,
}

impl View for Options {
    type V = OptionsView;

    open spec fn view(&self) -> OptionsView {
        OptionsView {
            request_topic_pattern: self.request_topic_pattern@,
            command_name: self.command_name@,
            topic_namespace: text::opt_text(self.topic_namespace),
            topic_token_map: self.topic_token_map.deep_view(),
            is_idempotent: self.is_idempotent,
            service_group_id: text::opt_text(self.service_group_id),
        }
    }
}

/// Why options cannot be built.
#[derive(Debug, PartialEq, Eq)]
pub enum OptionsBuilderError {
    /// Uninitialized field
    UninitializedField(&'static str),
}

impl OptionsBuilderError {
    /// The message that describes the error.
    pub open spec fn message(self) -> Seq<char> {
        match self {
            OptionsBuilderError::UninitializedField(field) => "`"@ + field@
                + "` must be initialized"@,
        }
    }

    /// The message that describes the error.
    pub fn to_string(&self) -> (r: String)
        ensures
            r@ == self.message(),
    {
        match self {
            OptionsBuilderError::UninitializedField(field) => "`".to_string().concat(field).concat(
                "` must be initialized",
            ),
        }
    }
}

/// Builder for [`Options`].
#[derive(Debug)]
pub struct OptionsBuilder {
    request_topic_pattern: Option<String>,
    command_name: Option<String>,
    topic_namespace: Option<String>,
    topic_token_map: Vec<(String, String)>,
    is_idempotent: bool,
    service_group_id: Option<String>,
}

/// What an [`OptionsBuilder`] stands for.
#[verifier::ext_equal]
pub struct OptionsBuilderView {
    pub request_topic_pattern: Option<Seq<char>>,
    pub command_name: Option<Seq<char>>,
    pub topic_namespace: Option<Seq<char>>,
    pub topic_token_map: Seq<text::Pair>,
    pub is_idempotent: bool,
    pub service_group_id: Option<Seq<char>>,
}

impl View for OptionsBuilder {
    type V = OptionsBuilderView;

    closed spec fn view(&self) -> OptionsBuilderView {
        OptionsBuilderView {
            request_topic_pattern: text::opt_text(self.request_topic_pattern),
            command_name: text::opt_text(self.command_name),
            topic_namespace: text::opt_text(self.topic_namespace),
            topic_token_map: self.topic_token_map.deep_view(),
            is_idempotent: self.is_idempotent,
            service_group_id: text::opt_text(self.service_group_id),
        }
    }
}

impl Default for OptionsBuilder {
    fn default() -> (r: Self)
        ensures
            r@ == (OptionsBuilderView {
                request_topic_pattern: None,
                command_name: None,
                topic_namespace: None,
                topic_token_map: Seq::empty(),
                is_idempotent: false,
                service_group_id: None,
            }),
    {
        let r = OptionsBuilder {
            request_topic_pattern: None,
            command_name: None,
            topic_namespace: None,
            topic_token_map: Vec::new(),
            is_idempotent: false,
            service_group_id: None,
        };
        assert(r@.topic_token_map =~= Seq::<text::Pair>::empty());
        r
    }
}

impl OptionsBuilder {
    /// Topic pattern for the command request.
    pub fn request_topic_pattern(&mut self, value: String) -> (r: &mut Self)
        ensures
            r@ == (OptionsBuilderView { request_topic_pattern: Some(value@), ..old(self)@ }),
            *final(r) == *final(self),
    {
        self.request_topic_pattern = Some(value);
        self
    }

    /// Command name if required by the topic pattern
    pub fn command_name(&mut self, value: String) -> (r: &mut Self)
        ensures
            r@ == (OptionsBuilderView { command_name: Some(value@), ..old(self)@ }),
            *final(r) == *final(self),
    {
        self.command_name = Some(value);
        self
    }

    /// Optional Topic namespace to be prepended to the topic pattern
    pub fn topic_namespace(&mut self, value: String) -> (r: &mut Self)
        ensures
            r@ == (OptionsBuilderView { topic_namespace: Some(value@), ..old(self)@ }),
            *final(r) == *final(self),
    {
        self.topic_namespace = Some(value);
        self
    }

    /// Topic token keys/values to be permanently replaced in the topic pattern
    pub fn topic_token_map(&mut self, value: Vec<(String, String)>) -> (r: &mut Self)
        ensures
            r@ == (OptionsBuilderView { topic_token_map: value.deep_view(), ..old(self)@ }),
            *final(r) == *final(self),
    {
        self.topic_token_map = value;
        self
    }

    /// Denotes if commands are idempotent
    pub fn is_idempotent(&mut self, value: bool) -> (r: &mut Self)
        ensures
            r@ == (OptionsBuilderView { is_idempotent: value, ..old(self)@ }),
            *final(r) == *final(self),
    {
        self.is_idempotent = value;
        self
    }

    /// Service group ID
    pub fn service_group_id(&mut self, value: String) -> (r: &mut Self)
        ensures
            r@ == (OptionsBuilderView { service_group_id: Some(value@), ..old(self)@ }),
            *final(r) == *final(self),
    {
        self.service_group_id = Some(value);
        self
    }

    /// Builds a new [`Options`].
    ///
    /// # Errors
    /// If a required field has not been initialized.
    pub fn build(&self) -> (r: Result<Options, OptionsBuilderError>)
        ensures
            match (self@.request_topic_pattern, self@.command_name) {
                (Some(pattern), Some(name)) => r is Ok && r->Ok_0@ == (OptionsView {
                    request_topic_pattern: pattern,
                    command_name: name,
                    topic_namespace: self@.topic_namespace,
                    topic_token_map: self@.topic_token_map,
                    is_idempotent: self@.is_idempotent,
                    service_group_id: self@.service_group_id,
                }),
                (None, _) => r is Err && r->Err_0.message() == "`"@ + "request_topic_pattern"@
                    + "` must be initialized"@,
                _ => r is Err && r->Err_0.message() == "`"@ + "command_name"@
                    + "` must be initialized"@,
            },
    {
        let request_topic_pattern = match &self.request_topic_pattern {
            Some(pattern) => pattern.clone(),
            None => {
                return Err(OptionsBuilderError::UninitializedField("request_topic_pattern"));
            },
        };
        let command_name = match &self.command_name {
            Some(name) => name.clone(),
            None => {
                return Err(OptionsBuilderError::UninitializedField("command_name"));
            },
        };
        Ok(
            Options {
                request_topic_pattern,
                command_name,
                topic_namespace: clone_opt(&self.topic_namespace),
                topic_token_map: clone_pairs(&self.topic_token_map),
                is_idempotent: self.is_idempotent,
                service_group_id: clone_opt(&self.service_group_id),
            },
        )
    }
}

} // verus!
