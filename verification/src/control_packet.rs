//! The MQTT control packets, as far as the session and command layers read them.

use bytes::Bytes;
use vstd::prelude::*;

use crate::bytes_data::{self, bytes_clone, bytes_from_vec, clone_opt_bytes};
use crate::text::{self, clone_opt, clone_pairs};

verus! {

/// Quality of Service
#[derive(Clone, Copy, Debug, PartialEq, Eq, Structural)]
pub enum QoS {
    /// QoS 0
    AtMostOnce,
    /// QoS 1
    AtLeastOnce,
    /// QoS 2
    ExactlyOnce,
}

/// Properties for a PUBLISH packet
#[derive(Debug, PartialEq, Eq)]
pub struct PublishProperties {
    pub payload_format_indicator: Option<u8>,
    pub message_expiry_interval: Option<u32>,
    pub topic_alias: Option<u16>,
    pub response_topic: Option<String>,
    pub correlation_data: Option<Bytes>,
    pub user_properties: Vec<(String, String)>,
    pub subscription_identifiers: Vec<usize>,
    pub content_type: Option<String>,
}

/// What [`PublishProperties`] stand for.
#[verifier::ext_equal]
pub struct PublishPropertiesView {
    pub payload_format_indicator: Option<u8>,
    pub message_expiry_interval: Option<u32>,
    pub topic_alias: Option<u16>,
    pub response_topic: Option<Seq<char>>,
    pub correlation_data: Option<Seq<u8>>,
    pub user_properties: Seq<text::Pair>,
    pub subscription_identifiers: Seq<usize>,
    pub content_type: Option<Seq<char>>,
}

impl View for PublishProperties {
    type V = PublishPropertiesView;

    open spec fn view(&self) -> PublishPropertiesView {
        PublishPropertiesView {
            payload_format_indicator: self.payload_format_indicator,
            message_expiry_interval: self.message_expiry_interval,
            topic_alias: self.topic_alias,
            response_topic: text::opt_text(self.response_topic),
            correlation_data: bytes_data::opt_contents(self.correlation_data),
            user_properties: self.user_properties.deep_view(),
            subscription_identifiers: self.subscription_identifiers@,
            content_type: text::opt_text(self.content_type),
        }
    }
}

impl PublishPropertiesView {
    /// Properties of which none is set.
    pub open spec fn empty() -> Self {
        PublishPropertiesView {
            payload_format_indicator: None,
            message_expiry_interval: None,
            topic_alias: None,
            response_topic: None,
            correlation_data: None,
            user_properties: Seq::empty(),
            subscription_identifiers: Seq::empty(),
            content_type: None,
        }
    }
}

impl Default for PublishProperties {
    fn default() -> (r: Self)
        ensures
            r@ == PublishPropertiesView::empty(),
    {
        let r = PublishProperties {
            payload_format_indicator: None,
            message_expiry_interval: None,
            topic_alias: None,
            response_topic: None,
            correlation_data: None,
            user_properties: Vec::new(),
            subscription_identifiers: Vec::new(),
            content_type: None,
        };
        assert(r@ =~= PublishPropertiesView::empty());
        r
    }
}

/// A copy of a list of numbers.
fn clone_identifiers(v: &Vec<usize>) -> (r: Vec<usize>)
    ensures
        r@ == v@,
{
    let mut r: Vec<usize> = Vec::new();
    for i in 0..v.len()
        invariant
            r@ == v@.take(i as int),
    {
        r.push(v[i]);
        assert(v@.take(i + 1) =~= v@.take(i as int).push(v@[i as int]));
    }
    assert(v@.take(v@.len() as int) =~= v@);
    r
}

impl Clone for PublishProperties {
    fn clone(&self) -> (r: Self)
        ensures
            r@ == self@,
    {
        let r = PublishProperties {
            payload_format_indicator: self.payload_format_indicator,
            message_expiry_interval: self.message_expiry_interval,
            topic_alias: self.topic_alias,
            response_topic: clone_opt(&self.response_topic),
            correlation_data: clone_opt_bytes(&self.correlation_data),
            user_properties: clone_pairs(&self.user_properties),
            subscription_identifiers: clone_identifiers(&self.subscription_identifiers),
            content_type: clone_opt(&self.content_type),
        };
        assert(r@ =~= self@);
        r
    }
}

/// What optional properties stand for.
pub open spec fn opt_properties(p: Option<PublishProperties>) -> Option<PublishPropertiesView> {
    match p {
        Some(x) => Some(x@),
        None => None,
    }
}

/// PUBLISH packet
#[derive(Debug, PartialEq, Eq)]
pub struct Publish {
    /// Whether the packet may be the redelivery of an earlier one.
    pub dup: bool,
    pub qos: QoS,
    pub retain: bool,
    /// The topic name as it was received, encoded in UTF-8.
    pub topic: Bytes,
    /// The packet identifier, zero for QoS 0.
    pub pkid: u16,
    pub payload: Bytes,
    pub properties: Option<PublishProperties>,
}

/// What a [`Publish`] stands for.
#[verifier::ext_equal]
pub struct PublishView {
    pub dup: bool,
    pub qos: QoS,
    pub retain: bool,
    pub topic: Seq<u8>,
    pub pkid: u16,
    pub payload: Seq<u8>,
    pub properties: Option<PublishPropertiesView>,
}

impl View for Publish {
    type V = PublishView;

    open spec fn view(&self) -> PublishView {
        PublishView {
            dup: self.dup,
            qos: self.qos,
            retain: self.retain,
            topic: bytes_data::contents(self.topic),
            pkid: self.pkid,
            payload: bytes_data::contents(self.payload),
            properties: opt_properties(self.properties),
        }
    }
}

impl Clone for Publish {
    fn clone(&self) -> (r: Self)
        ensures
            r@ == self@,
    {
        let properties = match &self.properties {
            Some(p) => Some(p.clone()),
            None => None,
        };
        let r = Publish {
            dup: self.dup,
            qos: self.qos,
            retain: self.retain,
            topic: bytes_clone(&self.topic),
            pkid: self.pkid,
            payload: bytes_clone(&self.payload),
            properties,
        };
        assert(r@ =~= self@);
        r
    }
}

impl Publish {
    /// A packet with the given topic and payload, neither a redelivery nor retained, that has no
    /// packet identifier yet.
    pub fn new(
        topic: &str,
        qos: QoS,
        payload: Bytes,
        properties: Option<PublishProperties>,
    ) -> (r: Self)
        ensures
            r@ == (PublishView {
                dup: false,
                qos,
                retain: false,
                topic: vstd::utf8::encode_utf8(topic@),
                pkid: 0,
                payload: bytes_data::contents(payload),
                properties: opt_properties(properties),
            }),
    {
        Publish {
            dup: false,
            qos,
            retain: false,
            topic: bytes_from_vec(vstd::slice::slice_to_vec(topic.as_bytes())),
            pkid: 0,
            payload,
            properties,
        }
    }
}

/// Properties for a SUBSCRIBE packet
#[derive(Debug, PartialEq, Eq)]
pub struct SubscribeProperties {
    pub subscription_identifier: Option<usize>,
    pub user_properties: Vec<(String, String)>,
}

/// Properties for a UNSUBSCRIBE packet
#[derive(Debug, PartialEq, Eq)]
pub struct UnsubscribeProperties {
    pub user_properties: Vec<(String, String)>,
}

impl View for SubscribeProperties {
    type V = (Option<usize>, Seq<text::Pair>);

    open spec fn view(&self) -> (Option<usize>, Seq<text::Pair>) {
        (self.subscription_identifier, self.user_properties.deep_view())
    }
}

impl View for UnsubscribeProperties {
    type V = Seq<text::Pair>;

    open spec fn view(&self) -> Seq<text::Pair> {
        self.user_properties.deep_view()
    }
}

impl Clone for SubscribeProperties {
    fn clone(&self) -> (r: Self)
        ensures
            r@ == self@,
    {
        SubscribeProperties {
            subscription_identifier: self.subscription_identifier,
            user_properties: clone_pairs(&self.user_properties),
        }
    }
}

impl Clone for UnsubscribeProperties {
    fn clone(&self) -> (r: Self)
        ensures
            r@ == self@,
    {
        UnsubscribeProperties { user_properties: clone_pairs(&self.user_properties) }
    }
}

} // verus!
