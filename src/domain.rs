use vstd::prelude::*;

verus! {

/// The closed set of payload kinds a stream may carry.
#[derive(Clone, Copy, Debug, PartialEq, Eq, Hash, Structural)]
pub enum PayloadKind {
    CoreMotion,
    PadCoordinates,
}

/// A kind string that names none of the known payload kinds.
#[derive(Clone, Copy, Debug, PartialEq, Eq, Structural)]
pub struct UnknownKind;

/// The canonical identifier of a payload kind at the transport boundary.
pub open spec fn kind_name(k: PayloadKind) -> Seq<char> {
    match k {
        PayloadKind::CoreMotion => "core-motion"@,
        PayloadKind::PadCoordinates => "pad-coordinates"@,
    }
}

/// The kind whose canonical identifier is `s`, if any.
pub open spec fn kind_named(s: Seq<char>) -> Option<PayloadKind> {
    if s == kind_name(PayloadKind::CoreMotion) {
        Some(PayloadKind::CoreMotion)
    } else if s == kind_name(PayloadKind::PadCoordinates) {
        Some(PayloadKind::PadCoordinates)
    } else {
        None
    }
}

impl PayloadKind {
    pub fn as_str(&self) -> (r: &'static str)
        ensures
            r@ == kind_name(*self),
    {
        match self {
            PayloadKind::CoreMotion => "core-motion",
            PayloadKind::PadCoordinates => "pad-coordinates",
        }
    }

    /// Parses a canonical kind identifier; anything else is refused.
    pub fn parse(s: &str) -> (r: Result<PayloadKind, UnknownKind>)
        ensures
            r is Ok <==> kind_named(s@) is Some,
            r is Ok ==> kind_named(s@) == Some(r->Ok_0),
            r is Ok ==> kind_name(r->Ok_0) == s@,
    {
        let given = s.to_owned();
        if given == "core-motion".to_owned() {
            Ok(PayloadKind::CoreMotion)
        } else if given == "pad-coordinates".to_owned() {
            Ok(PayloadKind::PadCoordinates)
        } else {
            Err(UnknownKind)
        }
    }
}

impl std::str::FromStr for PayloadKind {
    type Err = UnknownKind;

    fn from_str(s: &str) -> (r: Result<PayloadKind, UnknownKind>)
        ensures
            r is Ok <==> kind_named(s@) is Some,
            r is Ok ==> kind_named(s@) == Some(r->Ok_0),
            r is Ok ==> kind_name(r->Ok_0) == s@,
    {
        PayloadKind::parse(s)
    }
}

/// Identity of a logical stream: the producer and the kind of its payloads.
#[derive(Clone, Debug, PartialEq, Eq, Hash)]
pub struct ChannelKey {
    pub device_id: String,
    pub kind: PayloadKind,
}

/// A stream key as mathematical values: the producer id and the kind.
pub type KeyView = (Seq<char>, PayloadKind);

impl View for ChannelKey {
    type V = KeyView;

    open spec fn view(&self) -> KeyView {
        (self.device_id@, self.kind)
    }
}

impl ChannelKey {
    pub fn new(device_id: &str, kind: PayloadKind) -> (r: ChannelKey)
        ensures
            r@ == (device_id@, kind),
    {
        ChannelKey { device_id: device_id.to_owned(), kind }
    }

    /// The key of a stream that a connection asks to open, given the kind
    /// string and the producer id from its route. An unknown kind refuses
    /// the connection before any session exists.
    pub fn from_request(kind: &str, device_id: &str) -> (r: Result<ChannelKey, UnknownKind>)
        ensures
            r is Ok <==> kind_named(kind@) is Some,
            r is Ok ==> r->Ok_0@ == (device_id@, kind_named(kind@)->Some_0),
    {
        match PayloadKind::parse(kind) {
            Ok(k) => Ok(ChannelKey::new(device_id, k)),
            Err(e) => Err(e),
        }
    }

    /// A copy of the key with the same view.
    pub fn duplicate(&self) -> (r: ChannelKey)
        ensures
            r@ == self@,
    {
        ChannelKey { device_id: self.device_id.clone(), kind: self.kind }
    }
}

} // verus!
