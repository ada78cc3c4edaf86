//! Common error types

use vstd::prelude::*;

verus! {

/// Error executing an MQTT publish
#[derive(Debug)]
pub struct PublishError {
    kind: PublishErrorKind,
}

impl View for PublishError {
    type V = PublishErrorKind;

    closed spec fn view(&self) -> PublishErrorKind {
        self.kind
    }
}

impl Clone for PublishError {
    fn clone(&self) -> (r: Self)
        ensures
            r@ == self@,
    {
        Self { kind: self.kind }
    }
}

impl PublishError {
    /// Create a new [`PublishError`]
    #[must_use]
    pub fn new(kind: PublishErrorKind) -> (r: Self)
        ensures
            r@ == kind,
            r == Self::of(kind),
    {
        Self { kind }
    }

    /// The error of a category.
    pub closed spec fn of(kind: PublishErrorKind) -> Self {
        Self { kind }
    }

    /// Return the corresponding [`PublishErrorKind`] for this error
    #[must_use]
    pub fn kind(&self) -> (r: &PublishErrorKind)
        ensures
            *r == self@,
    {
        &self.kind
    }

    /// The message that describes the error: that of its kind.
    pub fn to_string(&self) -> (r: String)
        ensures
            r@ == self@.message(),
    {
        self.kind.to_string()
    }
}

/// An enumeration of categories of [`PublishError`]
#[derive(Clone, Copy, Debug, Eq, PartialEq, Structural)]
pub enum PublishErrorKind {
    /// Client is detached from connection/event loop. Cannot send requests.
    DetachedClient,
    /// Invalid topic name provided
    InvalidTopicName,
}

impl PublishErrorKind {
    /// The message that describes the category.
    pub open spec fn message(self) -> Seq<char> {
        match self {
            PublishErrorKind::DetachedClient => "client is detached from connection/event loop"@,
            PublishErrorKind::InvalidTopicName => "invalid topic name"@,
        }
    }

    /// The message that describes the category.
    pub fn to_string(&self) -> (r: String)
        ensures
            r@ == self.message(),
    {
        match self {
            PublishErrorKind::DetachedClient => {
                "client is detached from connection/event loop".to_string()
            },
            PublishErrorKind::InvalidTopicName => "invalid topic name".to_string(),
        }
    }
}

/// Error executing an MQTT subscribe
#[derive(Debug)]
pub struct SubscribeError {
    kind: SubscribeErrorKind,
}

impl View for SubscribeError {
    type V = SubscribeErrorKind;

    closed spec fn view(&self) -> SubscribeErrorKind {
        self.kind
    }
}

impl Clone for SubscribeError {
    fn clone(&self) -> (r: Self)
        ensures
            r@ == self@,
    {
        Self { kind: self.kind }
    }
}

impl SubscribeError {
    /// Create a new [`SubscribeError`]
    #[must_use]
    pub fn new(kind: SubscribeErrorKind) -> (r: Self)
        ensures
            r@ == kind,
            r == Self::of(kind),
    {
        Self { kind }
    }

    /// The error of a category.
    pub closed spec fn of(kind: SubscribeErrorKind) -> Self {
        Self { kind }
    }

    /// Return the corresponding [`SubscribeErrorKind`] for this error
    #[must_use]
    pub fn kind(&self) -> (r: &SubscribeErrorKind)
        ensures
            *r == self@,
    {
        &self.kind
    }

    /// The message that describes the error: that of its kind.
    pub fn to_string(&self) -> (r: String)
        ensures
            r@ == self@.message(),
    {
        self.kind.to_string()
    }
}

/// An enumeration of categories of [`SubscribeError`]
#[derive(Clone, Copy, Debug, Eq, PartialEq, Structural)]
pub enum SubscribeErrorKind {
    /// Client is detached from connection/event loop. Cannot send requests.
    DetachedClient,
    /// Invalid topic filter provided
    InvalidTopicFilter,
}

impl SubscribeErrorKind {
    /// The message that describes the category.
    pub open spec fn message(self) -> Seq<char> {
        match self {
            SubscribeErrorKind::DetachedClient => "client is detached from connection/event loop"@,
            SubscribeErrorKind::InvalidTopicFilter => "invalid topic filter"@,
        }
    }

    /// The message that describes the category.
    pub fn to_string(&self) -> (r: String)
        ensures
            r@ == self.message(),
    {
        match self {
            SubscribeErrorKind::DetachedClient => {
                "client is detached from connection/event loop".to_string()
            },
            SubscribeErrorKind::InvalidTopicFilter => "invalid topic filter".to_string(),
        }
    }
}

/// Error executing an MQTT unsubscribe
#[derive(Debug)]
pub struct UnsubscribeError {
    kind: UnsubscribeErrorKind,
}

impl View for UnsubscribeError {
    type V = UnsubscribeErrorKind;

    closed spec fn view(&self) -> UnsubscribeErrorKind {
        self.kind
    }
}

impl Clone for UnsubscribeError {
    fn clone(&self) -> (r: Self)
        ensures
            r@ == self@,
    {
        Self { kind: self.kind }
    }
}

impl UnsubscribeError {
    /// Create a new [`UnsubscribeError`]
    #[must_use]
    pub fn new(kind: UnsubscribeErrorKind) -> (r: Self)
        ensures
            r@ == kind,
            r == Self::of(kind),
    {
        Self { kind }
    }

    /// The error of a category.
    pub closed spec fn of(kind: UnsubscribeErrorKind) -> Self {
        Self { kind }
    }

    /// Return the corresponding [`UnsubscribeErrorKind`] for this error
    #[must_use]
    pub fn kind(&self) -> (r: &UnsubscribeErrorKind)
        ensures
            *r == self@,
    {
        &self.kind
    }

    /// The message that describes the error: that of its kind.
    pub fn to_string(&self) -> (r: String)
        ensures
            r@ == self@.message(),
    {
        self.kind.to_string()
    }
}

/// An enumeration of categories of [`UnsubscribeError`]
#[derive(Clone, Copy, Debug, Eq, PartialEq, Structural)]
pub enum UnsubscribeErrorKind {
    /// Client is detached from connection/event loop. Cannot send requests.
    DetachedClient,
    /// Invalid topic filter provided
    InvalidTopicFilter,
}

impl UnsubscribeErrorKind {
    /// The message that describes the category.
    pub open spec fn message(self) -> Seq<char> {
        match self {
            UnsubscribeErrorKind::DetachedClient => "client is detached from connection/event loop"@,
            UnsubscribeErrorKind::InvalidTopicFilter => "invalid topic filter"@,
        }
    }

    /// The message that describes the category.
    pub fn to_string(&self) -> (r: String)
        ensures
            r@ == self.message(),
    {
        match self {
            UnsubscribeErrorKind::DetachedClient => {
                "client is detached from connection/event loop".to_string()
            },
            UnsubscribeErrorKind::InvalidTopicFilter => "invalid topic filter".to_string(),
        }
    }
}

/// Error executing an MQTT ack
#[derive(Debug)]
pub struct AckError {
    kind: AckErrorKind,
}

impl View for AckError {
    type V = AckErrorKind;

    closed spec fn view(&self) -> AckErrorKind {
        self.kind
    }
}

impl Clone for AckError {
    fn clone(&self) -> (r: Self)
        ensures
            r@ == self@,
    {
        Self { kind: self.kind }
    }
}

impl AckError {
    /// Create a new [`AckError`]
    #[must_use]
    pub fn new(kind: AckErrorKind) -> (r: Self)
        ensures
            r@ == kind,
            r == Self::of(kind),
    {
        Self { kind }
    }

    /// The error of a category.
    pub closed spec fn of(kind: AckErrorKind) -> Self {
        Self { kind }
    }

    /// Return the corresponding [`AckErrorKind`] for this error
    #[must_use]
    pub fn kind(&self) -> (r: &AckErrorKind)
        ensures
            *r == self@,
    {
        &self.kind
    }

    /// The message that describes the error: that of its kind.
    pub fn to_string(&self) -> (r: String)
        ensures
            r@ == self@.message(),
    {
        self.kind.to_string()
    }
}

/// An enumeration of categories of [`AckError`]
#[derive(Clone, Copy, Debug, Eq, PartialEq, Structural)]
pub enum AckErrorKind {
    /// Client is detached from connection/event loop. Cannot send requests.
    DetachedClient,
    /// The publish has already been sufficiently acknowledged
    AlreadyAcked,
}

impl AckErrorKind {
    /// The message that describes the category.
    pub open spec fn message(self) -> Seq<char> {
        match self {
            AckErrorKind::DetachedClient => "client is detached from connection/event loop"@,
            AckErrorKind::AlreadyAcked => "publish already acknowledged"@,
        }
    }

    /// The message that describes the category.
    pub fn to_string(&self) -> (r: String)
        ensures
            r@ == self.message(),
    {
        match self {
            AckErrorKind::DetachedClient => {
                "client is detached from connection/event loop".to_string()
            },
            AckErrorKind::AlreadyAcked => "publish already acknowledged".to_string(),
        }
    }
}

/// Error executing an MQTT disconnect
#[derive(Debug)]
pub struct DisconnectError {
    kind: DisconnectErrorKind,
}

impl View for DisconnectError {
    type V = DisconnectErrorKind;

    closed spec fn view(&self) -> DisconnectErrorKind {
        self.kind
    }
}

impl Clone for DisconnectError {
    fn clone(&self) -> (r: Self)
        ensures
            r@ == self@,
    {
        Self { kind: self.kind }
    }
}

impl DisconnectError {
    /// Create a new [`DisconnectError`]
    #[must_use]
    pub fn new(kind: DisconnectErrorKind) -> (r: Self)
        ensures
            r@ == kind,
            r == Self::of(kind),
    {
        Self { kind }
    }

    /// The error of a category.
    pub closed spec fn of(kind: DisconnectErrorKind) -> Self {
        Self { kind }
    }

    /// Return the corresponding [`DisconnectErrorKind`] for this error
    #[must_use]
    pub fn kind(&self) -> (r: &DisconnectErrorKind)
        ensures
            *r == self@,
    {
        &self.kind
    }

    /// The message that describes the error: that of its kind.
    pub fn to_string(&self) -> (r: String)
        ensures
            r@ == self@.message(),
    {
        self.kind.to_string()
    }
}

/// An enumeration of categories of [`DisconnectError`]
#[derive(Clone, Copy, Debug, Eq, PartialEq, Structural)]
pub enum DisconnectErrorKind {
    /// Client is detached from connection/event loop. Cannot send requests.
    DetachedClient,
}

impl DisconnectErrorKind {
    /// The message that describes the category.
    pub open spec fn message(self) -> Seq<char> {
        match self {
            DisconnectErrorKind::DetachedClient => "client is detached from connection/event loop"@,
        }
    }

    /// The message that describes the category.
    pub fn to_string(&self) -> (r: String)
        ensures
            r@ == self.message(),
    {
        match self {
            DisconnectErrorKind::DetachedClient => {
                "client is detached from connection/event loop".to_string()
            },
        }
    }
}

/// Error executing an MQTT reauth
#[derive(Debug)]
pub struct ReauthError {
    kind: ReauthErrorKind,
}

impl View for ReauthError {
    type V = ReauthErrorKind;

    closed spec fn view(&self) -> ReauthErrorKind {
        self.kind
    }
}

impl ReauthError {
    /// Create a new [`ReauthError`]
    #[must_use]
    pub fn new(kind: ReauthErrorKind) -> (r: Self)
        ensures
            r@ == kind,
            r == Self::of(kind),
    {
        Self { kind }
    }

    /// The error of a category.
    pub closed spec fn of(kind: ReauthErrorKind) -> Self {
        Self { kind }
    }

    /// Return the corresponding [`ReauthErrorKind`] for this error
    #[must_use]
    pub fn kind(&self) -> (r: &ReauthErrorKind)
        ensures
            *r == self@,
    {
        &self.kind
    }

    /// The message that describes the error: that of its kind.
    pub fn to_string(&self) -> (r: String)
        ensures
            r@ == self@.message(),
    {
        self.kind.to_string()
    }
}

/// An enumeration of categories of [`ReauthError`]
#[derive(Clone, Copy, Debug, Eq, PartialEq, Structural)]
pub enum ReauthErrorKind {
    /// Client is detached from connection/event loop. Cannot send requests.
    DetachedClient,
}

impl ReauthErrorKind {
    /// The message that describes the category.
    pub open spec fn message(self) -> Seq<char> {
        match self {
            ReauthErrorKind::DetachedClient => "client is detached from connection/event loop"@,
        }
    }

    /// The message that describes the category.
    pub fn to_string(&self) -> (r: String)
        ensures
            r@ == self.message(),
    {
        match self {
            ReauthErrorKind::DetachedClient => {
                "client is detached from connection/event loop".to_string()
            },
        }
    }
}

} // verus!
