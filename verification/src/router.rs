use vstd::prelude::*;

use crate::handlers::{callback_route, CallbackAction};
use crate::strutil::{
    all_digits, dec_value, has_prefix, parse_u64, starts_with, str_eq,
};
use vstd::string::StringExecFns;

verus! {

/// Everything a callback payload can say, across the bot's flows. A token that
/// fits no form is `Invalid`, never a crash.
pub enum CallbackToken {
    /// One of the fixed menu tokens.
    Menu(CallbackAction),
    /// A platform chosen during enrollment.
    Platform(String),
    /// A device count chosen from a button.
    DeviceCount(u64),
    /// Edit the connection at this position.
    EditConnection(u64),
    /// Delete the connection at this position.
    DeleteConnection(u64),
    /// Change the platform of the connection at this position.
    ChangePlatform(u64, String),
    /// A malformed or unrecognized token.
    Invalid,
}

/// The platform names the enrollment keyboard offers.
pub open spec fn is_platform_name(s: Seq<char>) -> bool {
    s == "Windows"@ || s == "Android"@ || s == "Linux"@ || s == "MacOS"@ || s == "iOS"@
}

/// The number a token of the form `<prefix><digits>` carries, when it has that
/// form.
pub open spec fn prefixed_number(s: Seq<char>, prefix: Seq<char>) -> Option<nat> {
    if s.len() > prefix.len() && s.take(prefix.len() as int) == prefix && all_digits(
        s.skip(prefix.len() as int),
    ) {
        Some(dec_value(s.skip(prefix.len() as int)))
    } else {
        None
    }
}

/// Splits a text at its first underscore: what stands before it and what after.
pub open spec fn split_once_underscore(s: Seq<char>) -> Option<(Seq<char>, Seq<char>)>
    decreases s.len(),
{
    if s.len() == 0 {
        None
    } else if s[0] == '_' {
        Some((Seq::empty(), s.drop_first()))
    } else {
        match split_once_underscore(s.drop_first()) {
            None => None,
            Some((before, after)) => Some((seq![s[0]] + before, after)),
        }
    }
}

/// A text whose first underscore stands at position `k` splits there.
proof fn lemma_split_at_first_underscore(s: Seq<char>, k: int)
    requires
        0 <= k < s.len(),
        s[k] == '_',
        forall|j: int| 0 <= j < k ==> s[j] != '_',
    ensures
        split_once_underscore(s) == Some((s.take(k), s.skip(k + 1))),
    decreases k,
{
    if k == 0 {
        assert(s.take(0) =~= Seq::<char>::empty());
        assert(s.skip(1) =~= s.drop_first());
    } else {
        let rest = s.drop_first();
        assert(rest[k - 1] == '_');
        assert forall|j: int| 0 <= j < k - 1 implies rest[j] != '_' by {
            assert(rest[j] == s[j + 1]);
        }
        lemma_split_at_first_underscore(rest, k - 1);
        assert(seq![s[0]] + rest.take(k - 1) =~= s.take(k));
        assert(rest.skip(k) =~= s.skip(k + 1));
    }
}

/// A text without an underscore does not split.
proof fn lemma_split_none(s: Seq<char>)
    requires
        forall|j: int| 0 <= j < s.len() ==> s[j] != '_',
    ensures
        split_once_underscore(s) is None,
    decreases s.len(),
{
    if s.len() > 0 {
        let rest = s.drop_first();
        assert forall|j: int| 0 <= j < rest.len() implies rest[j] != '_' by {
            assert(rest[j] == s[j + 1]);
        }
        lemma_split_none(rest);
    }
}

/// The parts a change-platform token carries, when it is well formed: the
/// position — the digits between the prefix and the next underscore — and the
/// platform text after that underscore, which must not be empty.
pub open spec fn change_platform_parts(s: Seq<char>) -> Option<(nat, Seq<char>)> {
    let prefix = "change_platform_"@;
    if has_prefix(s, prefix) {
        match split_once_underscore(s.skip(prefix.len() as int)) {
            Some((digits, platform)) => {
                if digits.len() > 0 && all_digits(digits) && dec_value(digits) <= u64::MAX
                    && platform.len() > 0 {
                    Some((dec_value(digits), platform))
                } else {
                    None
                }
            },
            None => None,
        }
    } else {
        None
    }
}

/// A text with one prefix cannot have another that disagrees with it at some
/// position.
proof fn lemma_prefixes_disagree(s: Seq<char>, p1: Seq<char>, p2: Seq<char>, idx: int)
    requires
        has_prefix(s, p1),
        0 <= idx < p1.len(),
        idx < p2.len(),
        p1[idx] != p2[idx],
    ensures
        !has_prefix(s, p2),
{
    if has_prefix(s, p2) {
        assert(s.take(p1.len() as int)[idx] == s[idx]);
        assert(s.take(p2.len() as int)[idx] == s[idx]);
    }
}

/// Reveals the token literals and records the first characters and lengths that
/// tell the token forms apart.
proof fn lemma_token_literals()
    ensures
        ("create_new_user"@).len() == 15 && ("create_new_user"@)[0] == 'c',
        ("show_about_me"@).len() == 13 && ("show_about_me"@)[0] == 's',
        ("show_sub_link"@).len() == 13 && ("show_sub_link"@)[0] == 's',
        ("recreate_sub_link"@).len() == 17 && ("recreate_sub_link"@)[0] == 'r',
        ("delete_me"@).len() == 9 && ("delete_me"@)[0] == 'd' && ("delete_me"@)[2] == 'l',
        ("back_to_main_menu"@).len() == 17 && ("back_to_main_menu"@)[0] == 'b',
        ("Windows"@).len() == 7 && ("Windows"@)[0] == 'W',
        ("Android"@).len() == 7 && ("Android"@)[0] == 'A',
        ("Linux"@).len() == 5 && ("Linux"@)[0] == 'L',
        ("MacOS"@).len() == 5 && ("MacOS"@)[0] == 'M',
        ("iOS"@).len() == 3 && ("iOS"@)[0] == 'i',
        ("device_count_"@).len() == 13 && ("device_count_"@)[0] == 'd' && ("device_count_"@)[2]
            == 'v',
        ("edit_connection_"@).len() == 16 && ("edit_connection_"@)[0] == 'e',
        ("delete_connection_"@).len() == 18 && ("delete_connection_"@)[0] == 'd'
            && ("delete_connection_"@)[2] == 'l',
        ("change_platform_"@).len() == 16 && ("change_platform_"@)[0] == 'c',
{
    reveal_strlit("create_new_user");
    reveal_strlit("show_about_me");
    reveal_strlit("show_sub_link");
    reveal_strlit("recreate_sub_link");
    reveal_strlit("delete_me");
    reveal_strlit("back_to_main_menu");
    reveal_strlit("Windows");
    reveal_strlit("Android");
    reveal_strlit("Linux");
    reveal_strlit("MacOS");
    reveal_strlit("iOS");
    reveal_strlit("device_count_");
    reveal_strlit("edit_connection_");
    reveal_strlit("delete_connection_");
    reveal_strlit("change_platform_");
}

/// The payload is none of the fixed menu tokens.
pub open spec fn not_a_menu_token(data: Seq<char>) -> bool {
    data != "create_new_user"@ && data != "show_about_me"@ && data != "show_sub_link"@ && data
        != "recreate_sub_link"@ && data != "delete_me"@ && data != "back_to_main_menu"@
}

/// A payload with one of the four token prefixes is neither a menu token nor a
/// platform name, and no two of the prefixes hold at once.
proof fn lemma_prefix_excludes_fixed(data: Seq<char>, prefix: Seq<char>)
    requires
        has_prefix(data, prefix),
        prefix == "device_count_"@ || prefix == "edit_connection_"@ || prefix
            == "delete_connection_"@ || prefix == "change_platform_"@,
        data.len() > prefix.len(),
    ensures
        !is_platform_name(data),
        prefix != "device_count_"@ ==> prefixed_number(data, "device_count_"@) is None,
        prefix != "edit_connection_"@ ==> prefixed_number(data, "edit_connection_"@) is None,
        prefix != "delete_connection_"@ ==> prefixed_number(data, "delete_connection_"@) is None,
        prefix != "change_platform_"@ ==> !has_prefix(data, "change_platform_"@),
{
    lemma_token_literals();
    assert(data[0] == data.take(prefix.len() as int)[0]);
    if prefix == "device_count_"@ {
        lemma_prefixes_disagree(data, prefix, "edit_connection_"@, 0);
        lemma_prefixes_disagree(data, prefix, "delete_connection_"@, 2);
        lemma_prefixes_disagree(data, prefix, "change_platform_"@, 0);
    } else if prefix == "edit_connection_"@ {
        lemma_prefixes_disagree(data, prefix, "device_count_"@, 0);
        lemma_prefixes_disagree(data, prefix, "delete_connection_"@, 0);
        lemma_prefixes_disagree(data, prefix, "change_platform_"@, 0);
    } else if prefix == "delete_connection_"@ {
        lemma_prefixes_disagree(data, prefix, "device_count_"@, 2);
        lemma_prefixes_disagree(data, prefix, "edit_connection_"@, 0);
        lemma_prefixes_disagree(data, prefix, "change_platform_"@, 0);
    } else {
        lemma_prefixes_disagree(data, prefix, "device_count_"@, 0);
        lemma_prefixes_disagree(data, prefix, "edit_connection_"@, 0);
        lemma_prefixes_disagree(data, prefix, "delete_connection_"@, 0);
    }
}

/// A menu token or a platform name fits none of the prefixed token forms.
proof fn lemma_fixed_excludes_prefixed(data: Seq<char>)
    requires
        !not_a_menu_token(data) || is_platform_name(data),
    ensures
        prefixed_number(data, "device_count_"@) is None,
        prefixed_number(data, "edit_connection_"@) is None,
        prefixed_number(data, "delete_connection_"@) is None,
        !has_prefix(data, "change_platform_"@),
        !not_a_menu_token(data) ==> !is_platform_name(data),
{
    lemma_token_literals();
    if has_prefix(data, "device_count_"@) && data.len() > 13 {
        lemma_prefixes_disagree(data, "device_count_"@, "create_new_user"@, 0);
        lemma_prefixes_disagree(data, "device_count_"@, "recreate_sub_link"@, 0);
        lemma_prefixes_disagree(data, "device_count_"@, "back_to_main_menu"@, 0);
        assert(data != "create_new_user"@) by {
            assert(("create_new_user"@).take(15) =~= "create_new_user"@);
        }
        assert(data != "recreate_sub_link"@) by {
            assert(("recreate_sub_link"@).take(17) =~= "recreate_sub_link"@);
        }
        assert(data != "back_to_main_menu"@) by {
            assert(("back_to_main_menu"@).take(17) =~= "back_to_main_menu"@);
        }
    }
    if has_prefix(data, "edit_connection_"@) && data.len() > 16 {
        lemma_prefixes_disagree(data, "edit_connection_"@, "recreate_sub_link"@, 0);
        lemma_prefixes_disagree(data, "edit_connection_"@, "back_to_main_menu"@, 0);
        assert(data != "recreate_sub_link"@) by {
            assert(("recreate_sub_link"@).take(17) =~= "recreate_sub_link"@);
        }
        assert(data != "back_to_main_menu"@) by {
            assert(("back_to_main_menu"@).take(17) =~= "back_to_main_menu"@);
        }
    }
    if has_prefix(data, "change_platform_"@) {
        lemma_prefixes_disagree(data, "change_platform_"@, "recreate_sub_link"@, 0);
        lemma_prefixes_disagree(data, "change_platform_"@, "back_to_main_menu"@, 0);
        assert(data != "recreate_sub_link"@) by {
            assert(("recreate_sub_link"@).take(17) =~= "recreate_sub_link"@);
        }
        assert(data != "back_to_main_menu"@) by {
            assert(("back_to_main_menu"@).take(17) =~= "back_to_main_menu"@);
        }
    }
}

/// Finds the first underscore of a string.
fn find_underscore(s: &str) -> (r: Option<usize>)
    ensures
        r matches Some(k) ==> k < s@.len() && split_once_underscore(s@) == Some(
            (s@.take(k as int), s@.skip(k as int + 1)),
        ),
        r is None ==> split_once_underscore(s@) is None,
{
    let len = s.unicode_len();
    let mut i: usize = 0;
    while i < len
        invariant
            i <= len,
            len == s@.len(),
            forall|j: int| 0 <= j < i ==> s@[j] != '_',
        decreases len - i,
    {
        if s.get_char(i) == '_' {
            proof {
                lemma_split_at_first_underscore(s@, i as int);
            }
            return Some(i);
        }
        i = i + 1;
    }
    proof {
        lemma_split_none(s@);
    }
    None
}

/// Reads a token of the form `<prefix><digits>`, refusing any other shape and
/// any position too large for its type.
fn parse_prefixed_number(data: &str, prefix: &str) -> (r: Option<u64>)
    ensures
        r matches Some(v) ==> prefixed_number(data@, prefix@) == Some(v as nat),
        r is None ==> (prefixed_number(data@, prefix@) matches Some(n) ==> n > u64::MAX),
{
    if !starts_with(data, prefix) {
        return None;
    }
    let plen = prefix.unicode_len();
    let dlen = data.unicode_len();
    if dlen <= plen {
        return None;
    }
    let suffix = data.substring_char(plen, dlen);
    assert(suffix@ =~= data@.skip(plen as int));
    parse_u64(suffix)
}

/// Routes a callback payload to what it says: the fixed menu tokens, the
/// platform names of the enrollment keyboard, and the position-carrying tokens
/// of the connection-editing flow, each parsed defensively — a malformed token
/// is `Invalid`, never a crash.
pub fn parse_callback_token(data: &str) -> (t: CallbackToken)
    ensures
        !not_a_menu_token(data@) ==> (t matches CallbackToken::Menu(a) && !(a is Unknown)),
        is_platform_name(data@) ==> (t matches CallbackToken::Platform(p) && p@ == data@),
        prefixed_number(data@, "device_count_"@) matches Some(n) ==> (n <= u64::MAX ==> t
            == CallbackToken::DeviceCount(n as u64)),
        prefixed_number(data@, "edit_connection_"@) matches Some(n) ==> (n <= u64::MAX ==> t
            == CallbackToken::EditConnection(n as u64)),
        prefixed_number(data@, "delete_connection_"@) matches Some(n) ==> (n <= u64::MAX ==> t
            == CallbackToken::DeleteConnection(n as u64)),
        change_platform_parts(data@) matches Some((n, p)) ==> (n <= u64::MAX ==> (t
            matches CallbackToken::ChangePlatform(v, q) && v == n && q@ == p)),
{
    let action = callback_route(data);
    if !matches!(action, CallbackAction::Unknown) {
        proof {
            lemma_fixed_excludes_prefixed(data@);
        }
        return CallbackToken::Menu(action);
    }
    if str_eq(data, "Windows") || str_eq(data, "Android") || str_eq(data, "Linux") || str_eq(
        data,
        "MacOS",
    ) || str_eq(data, "iOS") {
        proof {
            lemma_fixed_excludes_prefixed(data@);
        }
        return CallbackToken::Platform(data.to_owned());
    }
    if let Some(n) = parse_prefixed_number(data, "device_count_") {
        proof {
            lemma_token_literals();
            lemma_prefix_excludes_fixed(data@, "device_count_"@);
        }
        return CallbackToken::DeviceCount(n);
    }
    if let Some(n) = parse_prefixed_number(data, "edit_connection_") {
        proof {
            lemma_token_literals();
            lemma_prefix_excludes_fixed(data@, "edit_connection_"@);
        }
        return CallbackToken::EditConnection(n);
    }
    if let Some(n) = parse_prefixed_number(data, "delete_connection_") {
        proof {
            lemma_token_literals();
            lemma_prefix_excludes_fixed(data@, "delete_connection_"@);
        }
        return CallbackToken::DeleteConnection(n);
    }
    if starts_with(data, "change_platform_") {
        let plen = "change_platform_".unicode_len();
        let dlen = data.unicode_len();
        if dlen > plen {
            let rest = data.substring_char(plen, dlen);
            assert(rest@ =~= data@.skip(plen as int));
            if let Some(k) = find_underscore(rest) {
                let digits = rest.substring_char(0, k);
                assert(digits@ =~= rest@.take(k as int));
                let rest_len = rest.unicode_len();
                if k + 1 < rest_len {
                    let platform = rest.substring_char(k + 1, rest_len);
                    assert(platform@ =~= rest@.skip(k as int + 1));
                    if let Some(n) = parse_u64(digits) {
                        proof {
                            lemma_prefix_excludes_fixed(data@, "change_platform_"@);
                        }
                        return CallbackToken::ChangePlatform(n, platform.to_owned());
                    }
                }
            }
        }
    }
    CallbackToken::Invalid
}

} // verus!
