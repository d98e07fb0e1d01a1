//! Native registration decisions of a plugin.
use vstd::prelude::*;
use vstd::string::StringExecFns;
use crate::error::AmxError;
use crate::types::Cell;

verus! {

/// The indices, in list order, of the natives whose lookup status is not
/// 0: those an AMX does not know yet.
pub open spec fn unknown_natives(lookup_codes: Seq<i32>) -> Seq<usize>
    decreases lookup_codes.len(),
{
    if lookup_codes.len() == 0 {
        Seq::empty()
    } else {
        let last = (lookup_codes.len() - 1) as int;
        let earlier = unknown_natives(lookup_codes.drop_last());
        if lookup_codes[last] != 0 {
            earlier.push(last as usize)
        } else {
            earlier
        }
    }
}

/// Which natives of a plugin's list still need registering with an AMX,
/// given for each native the status `amx_FindNative` returned for its
/// name: a native the AMX already knows (status 0, `AMX_ERR_NONE`) is
/// left out, so that a script loading after another one does not get
/// the natives twice.
///
/// Returns the indices of the natives to register, in list order.
pub fn natives_to_register(lookup_codes: &Vec<i32>) -> (picked: Vec<usize>)
    ensures
        picked@ == unknown_natives(lookup_codes@),
{
    let mut picked: Vec<usize> = Vec::new();
    let mut i: usize = 0;
    while i < lookup_codes.len()
        invariant
            i <= lookup_codes@.len(),
            picked@ == unknown_natives(lookup_codes@.take(i as int)),
        decreases lookup_codes@.len() - i,
    {
        assert(lookup_codes@.take(i + 1).drop_last() =~= lookup_codes@.take(i as int));
        if lookup_codes[i] != 0 {
            picked.push(i);
        }
        i = i + 1;
    }
    assert(lookup_codes@.take(lookup_codes@.len() as int) =~= lookup_codes@);
    picked
}

/// Every index picked for registration is a native of the list that the
/// AMX does not know, the indices rise strictly, and every native the AMX
/// does not know is picked.
pub proof fn law_register_exactly_unknown(lookup_codes: Seq<i32>)
    requires
        lookup_codes.len() <= usize::MAX,
    ensures
        ({
            let picked = unknown_natives(lookup_codes);
            &&& forall|k: int| 0 <= k < picked.len() ==> #[trigger] picked[k] < lookup_codes.len()
                && lookup_codes[picked[k] as int] != 0
            &&& forall|k1: int, k2: int| 0 <= k1 < k2 < picked.len() ==> picked[k1] < picked[k2]
            &&& forall|i: int| 0 <= i < lookup_codes.len() && lookup_codes[i] != 0 ==> picked.contains(i as usize)
        }),
    decreases lookup_codes.len(),
{
    if lookup_codes.len() > 0 {
        let rest = lookup_codes.drop_last();
        law_register_exactly_unknown(rest);
        let earlier = unknown_natives(rest);
        let last = lookup_codes.len() - 1;
        let picked = unknown_natives(lookup_codes);
        if lookup_codes[last] != 0 {
            assert(picked == earlier.push(last as usize));
        } else {
            assert(picked == earlier);
        }
        assert forall|k: int| 0 <= k < picked.len() implies #[trigger] picked[k] < lookup_codes.len()
            && lookup_codes[picked[k] as int] != 0 by {
            if k < earlier.len() {
                assert(picked[k] == earlier[k]);
                assert(earlier[k] < rest.len() && rest[earlier[k] as int] != 0);
                assert(rest[earlier[k] as int] == lookup_codes[earlier[k] as int]);
            }
        }
        assert forall|k1: int, k2: int| 0 <= k1 < k2 < picked.len() implies picked[k1] < picked[k2] by {
            if k2 < earlier.len() {
                assert(picked[k1] == earlier[k1] && picked[k2] == earlier[k2]);
            } else {
                assert(picked[k1] == earlier[k1]);
                assert(earlier[k1] < rest.len());
            }
        }
        assert forall|i: int| 0 <= i < lookup_codes.len() && lookup_codes[i] != 0 implies picked.contains(i as usize) by {
            if i < last {
                assert(rest[i] == lookup_codes[i]);
                let k = choose|k: int| 0 <= k < earlier.len() && earlier[k] == i as usize;
                assert(picked[k] == i as usize);
            } else {
                assert(picked[picked.len() - 1] == i as usize);
            }
        }
    }
}

/// What the example native `MyStringFunction(const text[])` reports for
/// the result of reading its string argument: the log line and the value
/// returned to Pawn (1 when the text was read, 0 when the read failed).
pub fn string_function_report(read: Result<String, AmxError>) -> (out: (String, Cell))
    ensures
        read matches Ok(text) ==> out.1 == 1
            && out.0@ == "[MyPlugin] MyStringFunction: \""@ + text@ + "\""@,
        read matches Err(e) ==> out.1 == 0
            && out.0@ == "[MyPlugin] Error reading string: "@ + ("AMX error: "@ + e.description()),
{
    match read {
        Ok(text) => {
            let mut line = String::from_str("[MyPlugin] MyStringFunction: \"");
            line.append(text.as_str());
            line.append("\"");
            (line, 1)
        },
        Err(e) => {
            let mut line = String::from_str("[MyPlugin] Error reading string: ");
            let shown = e.to_display_string();
            line.append(shown.as_str());
            (line, 0)
        },
    }
}

} // verus!
