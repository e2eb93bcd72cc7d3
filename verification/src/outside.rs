use vstd::prelude::*;
use crate::text::decimal;

verus! {

/// Whether `c` is a lowercase hexadecimal digit.
pub open spec fn is_lower_hex(c: char) -> bool {
    ('0' <= c && c <= '9') || ('a' <= c && c <= 'f')
}

/// The text of a version-4 UUID in hyphenated lowercase form, such as
/// `67e55044-10b1-426f-9247-bb680e5fe0c8`.
pub open spec fn is_hyphenated_uuid_v4(s: Seq<char>) -> bool {
    &&& s.len() == 36
    &&& forall|i: int|
        0 <= i < 36 ==> (if i == 8 || i == 13 || i == 18 || i == 23 {
            s[i] == '-'
        } else {
            is_lower_hex(#[trigger] s[i])
        })
    &&& s[14] == '4'
}

/// Calls `uuid::Uuid::new_v4` and formats the UUID with `to_string`.
/// The UUID is random; the contract claims only its textual form: 36
/// characters, hyphens at 8, 13, 18 and 23, lowercase hex digits elsewhere,
/// and the version digit `4` at 14 (uuid's `Display` writes the hyphenated
/// lowercase form, and `new_v4` sets the version bits).
#[verifier::external_body]
pub(crate) fn new_uuid_v4_string() -> (s: String)
    ensures
        is_hyphenated_uuid_v4(s@),
{
    uuid::Uuid::new_v4().to_string()
}

/// The `Debug` text of a tokio task id: `Id(<n>)` with `n` a positive
/// decimal number.
pub open spec fn is_task_id_text(s: Seq<char>) -> bool {
    exists|n: u64| n >= 1 && s == "Id("@ + decimal(n as nat) + ")"@
}

/// Calls `tokio::task::try_id` and formats the id of the running task with
/// `Debug`. Which id comes back depends on the task that runs the call, so
/// only its form is claimed: tokio's `Id` wraps a `NonZeroU64` and derives
/// `Debug`, which writes `Id(<n>)` in decimal. `None` outside a task is
/// not claimed either way.
#[verifier::external_body]
pub(crate) fn current_task_id_text() -> (r: Option<String>)
    ensures
        r matches Some(t) ==> is_task_id_text(t@),
{
    match tokio::task::try_id() {
        Some(id) => Some(format!("{:?}", id)),
        None => None,
    }
}

} // verus!
