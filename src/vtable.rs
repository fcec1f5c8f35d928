use vstd::prelude::*;

verus! {

/// Process-stable identity of one concrete message type, compared only for equality.
#[derive(Clone, Copy, Debug, PartialEq, Eq, Structural)]
pub struct MessageTypeId {
    pub id: u64,
}

impl MessageTypeId {
    pub fn new(id: u64) -> (r: MessageTypeId)
        ensures
            r.id == id,
    {
        MessageTypeId { id }
    }
}

/// Size and alignment of a message's representation.
#[derive(Clone, Copy, Debug, PartialEq, Eq, Structural)]
pub struct ReprLayout {
    pub size: usize,
    pub align: usize,
}

/// A telemetry label of `metrics`, carried as an opaque value.
#[verifier::external_type_specification]
#[verifier::external_body]
pub struct ExLabel(metrics::Label);

/// The label built from a static key and value.
pub uninterp spec fn static_label(key: Seq<char>, value: Seq<char>) -> metrics::Label;

/// Relies on `metrics::Label::from_static_parts`: the label holds the key and the value,
/// and is equal to any other label built from the same key and value.
#[verifier::external_body]
fn make_label(key: &'static str, value: &'static str) -> (r: metrics::Label)
    ensures
        r == static_label(key@, value@),
{
    metrics::Label::from_static_parts(key, value)
}

/// The telemetry labels attached to every message of a type.
pub open spec fn labels_spec(name: Seq<char>, protocol: Seq<char>) -> Seq<metrics::Label> {
    seq![static_label("message"@, name), static_label("protocol"@, protocol)]
}

/// The capability table of one concrete message type.
#[derive(Clone, Copy, Debug)]
pub struct MessageVTable {
    pub type_id: MessageTypeId,
    pub name: &'static str,
    pub protocol: &'static str,
    pub dumping_allowed: bool,
    pub repr_layout: ReprLayout,
}

impl MessageVTable {
    /// The telemetry labels of the type: its name and its protocol.
    pub fn labels(&self) -> (r: Vec<metrics::Label>)
        ensures
            r@ == labels_spec(self.name@, self.protocol@),
    {
        proof {
            reveal_strlit("message");
            reveal_strlit("protocol");
        }
        let mut labels: Vec<metrics::Label> = Vec::new();
        labels.push(make_label("message", self.name));
        labels.push(make_label("protocol", self.protocol));
        assert(labels@ =~= labels_spec(self.name@, self.protocol@));
        labels
    }
}

} // verus!
