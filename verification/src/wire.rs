//! The frame of a payload: one JSON array that holds one object, with the
//! records of a batch under the name of their kind and, where the batch has
//! attributes, the attributes under `common`.
//!
//! The records and the attributes come rendered; the frame is put round
//! them here.

use vstd::prelude::*;
use vstd::string::StringExecFns;

verus! {

/// The rendered records, with commas between them.
pub open spec fn joined(records: Seq<String>) -> Seq<char>
    decreases records.len(),
{
    if records.len() == 0 {
        Seq::empty()
    } else if records.len() == 1 {
        records[0]@
    } else {
        joined(records.drop_last()) + ","@ + records.last()@
    }
}

/// The member that holds the attributes of a batch, with the comma that
/// sets it off; nothing for a batch without attributes.
pub open spec fn common_text(attributes: Option<Seq<char>>) -> Seq<char> {
    match attributes {
        Some(rendered) => ",\"common\":{\"attributes\":"@ + rendered + "}"@,
        None => Seq::empty(),
    }
}

/// The payload of a batch of the given kind.
pub open spec fn payload_text(
    kind: Seq<char>,
    records: Seq<String>,
    attributes: Option<Seq<char>>,
) -> Seq<char> {
    "[{\""@ + kind + "\":["@ + joined(records) + "]"@ + common_text(attributes) + "}]"@
}

/// Frames rendered records and attributes as the payload of a batch.
pub fn payload(kind: &str, records: &Vec<String>, attributes: Option<&str>) -> (text: String)
    ensures
        text@ == payload_text(
            kind@,
            records@,
            match attributes {
                Some(rendered) => Some(rendered@),
                None => None,
            },
        ),
{
    let mut text = String::from_str("[{\"");
    text.append(kind);
    text.append("\":[");
    let ghost head = text@;
    let mut i: usize = 0;
    while i < records.len()
        invariant
            i <= records.len(),
            text@ == head + joined(records@.subrange(0, i as int)),
        decreases records.len() - i,
    {
        let ghost done = records@.subrange(0, i as int);
        let ghost next = records@.subrange(0, i as int + 1);
        assert(next.drop_last() =~= done);
        assert(next.last() == records@[i as int]);
        if i > 0 {
            text.append(",");
        }
        text.append(records[i].as_str());
        assert(text@ =~= head + joined(next));
        i = i + 1;
    }
    assert(records@.subrange(0, i as int) =~= records@);
    text.append("]");
    let ghost body = text@;
    match attributes {
        Some(rendered) => {
            text.append(",\"common\":{\"attributes\":");
            text.append(rendered);
            text.append("}");
            assert(text@ =~= body + common_text(Some(rendered@)));
        },
        None => {
            assert(text@ =~= body + common_text(None));
        },
    }
    text.append("}]");
    text
}

} // verus!
