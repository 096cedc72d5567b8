use vstd::prelude::*;
use vstd::string::StringExecFns;

verus! {

/// A packet: the payload it carries.
pub struct Packet {
    pub content: String,
}

/// The note that processing a packet produces: its payload behind a
/// fixed prefix.
pub open spec fn processing_note(p: Packet) -> Seq<char> {
    "Processing: "@ + p.content@
}

/// Processes a packet: renders its payload behind the processing prefix.
pub fn process_packet(p: &Packet) -> (r: String)
    ensures
        r@ == processing_note(*p),
{
    String::from_str("Processing: ").concat(p.content.as_str())
}

/// Routes the fixed demonstration packet through processing and hands the
/// rendered note to the caller for display.
pub fn packet_router() -> (r: String)
    ensures
        r@ == "Processing: DATA"@,
{
    let p = Packet { content: String::from_str("DATA") };
    let processed = process_packet(&p);
    proof {
        reveal_strlit("Processing: ");
        reveal_strlit("DATA");
        reveal_strlit("Processing: DATA");
        assert(("Processing: "@ + "DATA"@) =~= "Processing: DATA"@);
    }
    processed
}

} // verus!
