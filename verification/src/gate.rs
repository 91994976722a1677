//! The tenant gate: path protection, API-key resolution, and the
//! per-request authentication decision.
//!
//! A path is protected exactly when it contains the substring "api" — a
//! substring rule, not a route allowlist. On a protected path the
//! middleware requires the caller's API key header, resolves it to a tenant through
//! the store, and either grants the request the tenant id or refuses it
//! with a 403 and the fixed failure body.

use vstd::prelude::*;
use vstd::string::StrSliceExecFns;

use crate::audit::Audit;
use crate::audit::eventw;
use crate::response::Response;

verus! {

/// Whether the letters "api" occur contiguously in the text.
pub open spec fn has_api(s: Seq<char>) -> bool {
    exists|i: int| 0 <= i && i + 3 <= s.len() && #[trigger] s.subrange(i, i + 3) == "api"@
}

/// Whether a request path needs tenant authentication.
#[derive(Copy, Clone, Debug, PartialEq, Eq, Structural)]
pub enum PathClass {
    Protected,
    Open,
}

/// Classifies a path: Protected exactly when it contains "api"; everything
/// else bypasses authentication entirely.
pub fn classify(path: &str) -> (r: PathClass)
    ensures
        r is Protected <==> has_api(path@),
{
    let n = path.unicode_len();
    if n < 3 {
        proof {
            assert(!has_api(path@)) by {
                if has_api(path@) {
                    let j = choose|j: int|
                        0 <= j && j + 3 <= path@.len() && #[trigger] path@.subrange(j, j + 3) == "api"@;
                    assert(false);
                }
            }
        }
        return PathClass::Open;
    }
    let mut i: usize = 0;
    while i <= n - 3
        invariant
            3 <= n,
            n == path@.len(),
            i <= n - 2,
            forall|j: int| 0 <= j < i ==> #[trigger] path@.subrange(j, j + 3) != "api"@,
        decreases n - i,
    {
        let c0 = path.get_char(i);
        let c1 = path.get_char(i + 1);
        let c2 = path.get_char(i + 2);
        if c0 == 'a' && c1 == 'p' && c2 == 'i' {
            proof {
                reveal_strlit("api");
                assert(path@.subrange(i as int, i as int + 3) =~= "api"@);
            }
            return PathClass::Protected;
        }
        proof {
            assert(path@.subrange(i as int, i as int + 3) != "api"@) by {
                reveal_strlit("api");
                if path@.subrange(i as int, i as int + 3) == "api"@ {
                    assert(path@.subrange(i as int, i as int + 3)[0] == 'a');
                    assert(path@.subrange(i as int, i as int + 3)[1] == 'p');
                    assert(path@.subrange(i as int, i as int + 3)[2] == 'i');
                }
            }
        }
        i += 1;
    }
    proof {
        assert(!has_api(path@)) by {
            if has_api(path@) {
                let j = choose|j: int|
                    0 <= j && j + 3 <= path@.len() && #[trigger] path@.subrange(j, j + 3) == "api"@;
                assert(j < i);
            }
        }
    }
    PathClass::Open
}

/// First tenant paired with the key in a key table, scanned in order.
pub open spec fn key_lookup(table: Seq<(Seq<char>, i32)>, key: Seq<char>) -> Option<i32>
    decreases table.len(),
{
    if table.len() == 0 {
        None
    } else if table[0].0 == key {
        Some(table[0].1)
    } else {
        key_lookup(table.drop_first(), key)
    }
}

/// The mathematical contents of a key table value.
pub open spec fn table_view(t: Seq<(String, i32)>) -> Seq<(Seq<char>, i32)> {
    t.map_values(|p: (String, i32)| (p.0@, p.1))
}

/// Resolves an API key against a key table held as a value: the first
/// tenant registered under the key, or nothing when no row matches. This is
/// the lookup semantics the middleware asks of its store.
pub fn resolve_key(table: &Vec<(String, i32)>, key: &str) -> (r: Option<i32>)
    ensures
        r == key_lookup(table_view(table@), key@),
{
    let keys = key.to_owned();
    let mut i: usize = 0;
    proof {
        assert(table_view(table@).skip(0) =~= table_view(table@));
    }
    while i < table.len()
        invariant
            i <= table@.len(),
            keys@ == key@,
            key_lookup(table_view(table@), key@) == key_lookup(
                table_view(table@).skip(i as int),
                key@,
            ),
        decreases table@.len() - i,
    {
        proof {
            let p = table@[i as int];
            assert(table_view(table@).skip(i as int)[0] == (p.0@, p.1));
        }
        if table[i].0 == keys {
            return Some(table[i].1);
        }
        proof {
            assert(table_view(table@).skip(i as int).drop_first() =~= table_view(table@).skip(
                i as int + 1,
            ));
        }
        i += 1;
    }
    None
}

/// Key resolution is deterministic against a fixed table: any two results
/// that meet the lookup's contract for the same table and key are equal.
pub proof fn lemma_resolve_key_deterministic(
    table: Seq<(Seq<char>, i32)>,
    key: Seq<char>,
    r1: Option<i32>,
    r2: Option<i32>,
)
    requires
        r1 == key_lookup(table, key),
        r2 == key_lookup(table, key),
    ensures
        r1 == r2,
{
}

/// The choice among store rows matching a key: the first row, or
/// nothing when no row matched.
pub fn first_tenant(rows: &Vec<i32>) -> (r: Option<i32>)
    ensures
        rows@.len() > 0 ==> r == Some(rows@[0]),
        rows@.len() == 0 ==> r is None,
{
    if rows.len() > 0 {
        Some(rows[0])
    } else {
        None
    }
}

/// A decimal digit.
pub open spec fn is_digit(c: char) -> bool {
    48 <= c as int <= 57
}

/// The value of one decimal digit.
pub open spec fn digit_val(c: char) -> int {
    c as int - 48
}

/// Whether every character is a decimal digit.
pub open spec fn all_digits(s: Seq<char>) -> bool {
    forall|i: int| 0 <= i < s.len() ==> is_digit(#[trigger] s[i])
}

/// The value of a digit string, most significant digit first.
pub open spec fn digits_val(s: Seq<char>) -> int
    decreases s.len(),
{
    if s.len() == 0 {
        0
    } else {
        digits_val(s.drop_last()) * 10 + digit_val(s.last())
    }
}

/// The integer a tenant annotation denotes: an optional minus sign followed
/// by at least one decimal digit. Anything else denotes nothing.
pub open spec fn tenant_text_val(s: Seq<char>) -> Option<int> {
    if s.len() >= 2 && s[0] == '-' && all_digits(s.skip(1)) {
        Some(-digits_val(s.skip(1)))
    } else if s.len() >= 1 && all_digits(s) {
        Some(digits_val(s))
    } else {
        None
    }
}

proof fn lemma_digits_val_nonneg(s: Seq<char>)
    requires
        all_digits(s),
    ensures
        digits_val(s) >= 0,
    decreases s.len(),
{
    if s.len() > 0 {
        assert forall|i: int| 0 <= i < s.drop_last().len() implies is_digit(
            #[trigger] s.drop_last()[i],
        ) by {
            assert(s.drop_last()[i] == s[i]);
        }
        lemma_digits_val_nonneg(s.drop_last());
        assert(is_digit(s.last()));
    }
}

/// Parses the tenant annotation the middleware writes into a request: an optional
/// minus sign followed by decimal digits. Yields the denoted integer
/// exactly when the text denotes one that fits the tenant id type.
pub fn parse_tenant_id(s: &str) -> (r: Option<i32>)
    ensures
        r is Some <==> (tenant_text_val(s@) matches Some(v) && i32::MIN <= v <= i32::MAX),
        r matches Some(t) ==> Some(t as int) == tenant_text_val(s@),
{
    let n = s.unicode_len();
    if n == 0 {
        return None;
    }
    let neg = s.get_char(0) == '-';
    let start: usize = if neg {
        1
    } else {
        0
    };
    if n == start {
        proof {
            assert(!is_digit(s@[0]));
        }
        return None;
    }
    let mut i: usize = start;
    let mut acc: i64 = 0;
    while i < n
        invariant
            n == s@.len(),
            start <= i <= n,
            start < n,
            neg ==> start == 1 && s@[0] == '-',
            !neg ==> start == 0 && s@[0] != '-',
            all_digits(s@.subrange(start as int, i as int)),
            0 <= acc <= 2147483649,
            digits_val(s@.subrange(start as int, i as int)) <= 2147483648 ==> acc == digits_val(
                s@.subrange(start as int, i as int),
            ),
            digits_val(s@.subrange(start as int, i as int)) > 2147483648 ==> acc == 2147483649,
        decreases n - i,
    {
        let c = s.get_char(i);
        let u = c as u32;
        if u < 48 || u > 57 {
            proof {
                assert(!is_digit(s@[i as int]));
                if neg {
                    assert(!all_digits(s@.skip(1))) by {
                        assert(s@.skip(1)[i as int - 1] == s@[i as int]);
                    }
                    assert(!all_digits(s@)) by {
                        assert(!is_digit(s@[i as int]));
                    }
                } else {
                    assert(!all_digits(s@));
                }
                assert(tenant_text_val(s@) is None);
            }
            return None;
        }
        let d: i64 = (u - 48) as i64;
        let next: i64 = acc * 10 + d;
        let ghost prefix = s@.subrange(start as int, i as int);
        let ghost prefix1 = s@.subrange(start as int, i as int + 1);
        proof {
            assert(prefix1.drop_last() =~= prefix);
            assert(prefix1.last() == s@[i as int]);
            assert(is_digit(s@[i as int]));
            assert forall|k: int| 0 <= k < prefix1.len() implies is_digit(
                #[trigger] prefix1[k],
            ) by {
                if k < prefix1.len() - 1 {
                    assert(prefix1[k] == prefix[k]);
                } else {
                    assert(prefix1[k] == s@[i as int]);
                }
            }
            lemma_digits_val_nonneg(prefix);
            assert(digits_val(prefix1) == digits_val(prefix) * 10 + digit_val(s@[i as int]));
            assert(digit_val(s@[i as int]) == d);
        }
        if next > 2147483648 {
            acc = 2147483649;
        } else {
            acc = next;
        }
        i += 1;
    }
    let ghost digits = s@.subrange(start as int, n as int);
    proof {
        lemma_digits_val_nonneg(digits);
        if neg {
            assert(digits =~= s@.skip(1));
        } else {
            assert(digits =~= s@);
        }
    }
    if neg {
        if acc <= 2147483648 {
            let t64: i64 = -acc;
            proof {
                assert(i32::MIN as i64 <= t64 <= 0);
            }
            Some(t64 as i32)
        } else {
            None
        }
    } else {
        if acc <= 2147483647 {
            Some(acc as i32)
        } else {
            None
        }
    }
}

/// The one-character text of a decimal digit.
fn digit_str(d: u8) -> (r: &'static str)
    requires
        d < 10,
    ensures
        r@.len() == 1,
        digit_val(r@[0]) == d as int,
        is_digit(r@[0]),
{
    proof {
        reveal_strlit("0");
        reveal_strlit("1");
        reveal_strlit("2");
        reveal_strlit("3");
        reveal_strlit("4");
        reveal_strlit("5");
        reveal_strlit("6");
        reveal_strlit("7");
        reveal_strlit("8");
        reveal_strlit("9");
    }
    match d {
        0 => "0",
        1 => "1",
        2 => "2",
        3 => "3",
        4 => "4",
        5 => "5",
        6 => "6",
        7 => "7",
        8 => "8",
        _ => "9",
    }
}

/// The decimal text of a number, most significant digit first, no sign and
/// no leading zero beyond the number's own.
fn digits_string(m: u32) -> (r: String)
    ensures
        r@.len() >= 1,
        all_digits(r@),
        digits_val(r@) == m as int,
    decreases m,
{
    if m < 10 {
        let r = digit_str(m as u8).to_owned();
        proof {
            assert(r@.len() == 1);
            assert(r@.drop_last() =~= Seq::<char>::empty());
            assert(digits_val(Seq::<char>::empty()) == 0);
            assert(r@.last() == r@[0]);
            assert(digits_val(r@) == digits_val(r@.drop_last()) * 10 + digit_val(r@.last()));
        }
        r
    } else {
        proof {
            assert(m / 10 < m);
        }
        let mut s = digits_string(m / 10);
        let ghost high = s@;
        let last = digit_str((m % 10) as u8);
        s.append(last);
        proof {
            assert(s@.drop_last() =~= high);
            assert(s@.last() == last@[0]);
            assert forall|k: int| 0 <= k < s@.len() implies is_digit(#[trigger] s@[k]) by {
                if k < s@.len() - 1 {
                    assert(s@[k] == high[k]);
                } else {
                    assert(s@[k] == last@[0]);
                }
            }
            assert(digits_val(s@) == digits_val(high) * 10 + digit_val(last@[0]));
        }
        s
    }
}

/// Renders a tenant id as the annotation text the middleware writes into a
/// request: the decimal text that the parse reads back as the same tenant.
pub fn render_tenant_id(tid: i32) -> (r: String)
    ensures
        tenant_text_val(r@) == Some(tid as int),
{
    if tid >= 0 {
        let r = digits_string(tid as u32);
        proof {
            assert(r@[0] != '-');
        }
        r
    } else {
        let mag: u32 = if tid == i32::MIN {
            2147483648u32
        } else {
            (-tid) as u32
        };
        let mut s = "-".to_owned();
        let d = digits_string(mag);
        s.append(d.as_str());
        proof {
            reveal_strlit("-");
            assert(s@[0] == '-');
            assert(s@.skip(1) =~= d@);
            assert(s@.len() >= 2);
        }
        s
    }
}

/// The fixed refusal sent for a failed authentication.
pub fn forbidden() -> (r: Response)
    ensures
        r.status == 403,
        r.body@ == "\"api key failure\""@,
{
    Response::of(403, "\"api key failure\"")
}

/// The per-request authentication decision.
pub enum AuthOutcome {
    /// The path is open; the request proceeds without authentication.
    Bypass,
    /// The key resolved; the request proceeds annotated with this tenant.
    Granted(i32),
    /// The request is refused with this terminal response.
    Refused(Response),
}

/// Authenticates one request. An open path bypasses authentication
/// whatever its headers. On a protected path, a missing key header is reported at Info
/// and refused; a present key is resolved through `lookup` (the store's
/// key query), and the request is granted the resolved tenant or refused.
/// Every refusal is a 403 carrying the fixed failure body.
pub fn authenticate<L: Fn(String) -> Option<i32>>(
    aud: &Audit,
    path: &str,
    key: Option<&str>,
    lookup: L,
) -> (r: AuthOutcome)
    requires
        forall|k: String| #[trigger] call_requires(lookup, (k,)),
    ensures
        !has_api(path@) ==> r is Bypass,
        has_api(path@) ==> !(r is Bypass),
        has_api(path@) && key is None ==> (r matches AuthOutcome::Refused(resp) && resp.status
            == 403 && resp.body@ == "\"api key failure\""@),
        (has_api(path@) && key is Some) ==> (match r {
            AuthOutcome::Bypass => false,
            AuthOutcome::Granted(tid) => (exists|ks: String, res: Option<i32>|
                ks@ == key->0@ && #[trigger] call_ensures(lookup, (ks,), res) && res == Some(tid)),
            AuthOutcome::Refused(resp) => resp.status == 403 && resp.body@
                == "\"api key failure\""@ && (exists|ks: String|
                ks@ == key->0@ && #[trigger] call_ensures(lookup, (ks,), None::<i32>)),
        }),
{
    match classify(path) {
        PathClass::Open => AuthOutcome::Bypass,
        PathClass::Protected => match key {
            None => {
                aud.info(
                    eventw(
                        &[
                            "error",
                            "true",
                            "module",
                            "web",
                            "what",
                            "failed to get the x tenant id from the middleware",
                        ],
                    ),
                );
                AuthOutcome::Refused(forbidden())
            },
            Some(k) => {
                let ks = k.to_owned();
                let ghost gks = ks;
                match lookup(ks) {
                    Some(tid) => {
                        proof {
                            assert(call_ensures(lookup, (gks,), Some(tid)));
                        }
                        AuthOutcome::Granted(tid)
                    },
                    None => {
                        proof {
                            assert(call_ensures(lookup, (gks,), None::<i32>));
                        }
                        AuthOutcome::Refused(forbidden())
                    },
                }
            },
        },
    }
}

} // verus!
