//! Input validation: the email check, the blank-string check, the decimal
//! identifier parser and the bearer-token extraction.

use vstd::prelude::*;
use crate::errors::{AppError, AppResult};

verus! {

/// The email check of the reservation form: the address must hold both an
/// '@' and a '.'.
pub open spec fn spec_valid_email(s: Seq<char>) -> bool {
    s.contains('@') && s.contains('.')
}

/// Returns whether the address holds both an '@' and a '.'.
pub fn validate_email(email: &str) -> (r: bool)
    ensures
        r == spec_valid_email(email@),
{
    let len = email.unicode_len();
    let mut has_at = false;
    let mut has_dot = false;
    let mut i: usize = 0;
    while i < len
        invariant
            len == email@.len(),
            0 <= i <= len,
            has_at == exists|j: int| 0 <= j < i && email@[j] == '@',
            has_dot == exists|j: int| 0 <= j < i && email@[j] == '.',
        decreases len - i,
    {
        let c = email.get_char(i);
        if c == '@' {
            has_at = true;
        }
        if c == '.' {
            has_dot = true;
        }
        i += 1;
    }
    has_at && has_dot
}

/// The characters the blank check strips: Unicode's White_Space set, the
/// same characters that a trim removes.
pub open spec fn is_space(c: char) -> bool {
    ||| (0x09 <= c as u32 && c as u32 <= 0x0D)
    ||| c as u32 == 0x20
    ||| c as u32 == 0x85
    ||| c as u32 == 0xA0
    ||| c as u32 == 0x1680
    ||| (0x2000 <= c as u32 && c as u32 <= 0x200A)
    ||| c as u32 == 0x2028
    ||| c as u32 == 0x2029
    ||| c as u32 == 0x202F
    ||| c as u32 == 0x205F
    ||| c as u32 == 0x3000
}

/// A string is blank when every character is whitespace; the empty string
/// is blank.
pub open spec fn spec_blank(s: Seq<char>) -> bool {
    forall|i: int| 0 <= i < s.len() ==> is_space(#[trigger] s[i])
}

/// Returns whether the string is empty or all whitespace.
pub fn is_blank(s: &str) -> (r: bool)
    ensures
        r == spec_blank(s@),
{
    let len = s.unicode_len();
    let mut i: usize = 0;
    while i < len
        invariant
            len == s@.len(),
            0 <= i <= len,
            forall|j: int| 0 <= j < i ==> is_space(#[trigger] s@[j]),
        decreases len - i,
    {
        let c = s.get_char(i) as u32;
        let space = (0x09 <= c && c <= 0x0D) || c == 0x20 || c == 0x85 || c == 0xA0 || c == 0x1680
            || (0x2000 <= c && c <= 0x200A) || c == 0x2028 || c == 0x2029 || c == 0x202F || c
            == 0x205F || c == 0x3000;
        if !space {
            return false;
        }
        i += 1;
    }
    true
}

/// Compares two strings character by character.
pub fn str_eq(a: &str, b: &str) -> (r: bool)
    ensures
        r == (a@ == b@),
{
    let la = a.unicode_len();
    let lb = b.unicode_len();
    if la != lb {
        return false;
    }
    let mut i: usize = 0;
    while i < la
        invariant
            la == a@.len(),
            lb == b@.len(),
            la == lb,
            0 <= i <= la,
            forall|j: int| 0 <= j < i ==> a@[j] == b@[j],
        decreases la - i,
    {
        if a.get_char(i) != b.get_char(i) {
            return false;
        }
        i += 1;
    }
    proof {
        assert(a@ =~= b@);
    }
    true
}

/// A decimal digit.
pub open spec fn is_digit(c: char) -> bool {
    '0' as u32 <= c as u32 <= '9' as u32
}

/// The value of one digit; zero on anything else.
pub open spec fn digit_val(c: char) -> nat {
    if is_digit(c) {
        (c as u32 - '0' as u32) as nat
    } else {
        0
    }
}

/// Every character of the string is a decimal digit.
pub open spec fn all_digits(s: Seq<char>) -> bool {
    forall|i: int| 0 <= i < s.len() ==> is_digit(#[trigger] s[i])
}

/// The value of a decimal digit string, most significant digit first.
pub open spec fn dec_val(s: Seq<char>) -> nat
    decreases s.len(),
{
    if s.len() == 0 {
        0
    } else {
        dec_val(s.drop_last()) * 10 + digit_val(s.last())
    }
}

/// A longer digit prefix never has a smaller value.
proof fn lemma_dec_val_prefix(s: Seq<char>, i: int)
    requires
        0 <= i <= s.len(),
    ensures
        dec_val(s.subrange(0, i)) <= dec_val(s),
    decreases s.len() - i,
{
    if i == s.len() {
        assert(s.subrange(0, i) =~= s);
    } else {
        let t = s.subrange(0, i + 1);
        assert(t.drop_last() =~= s.subrange(0, i));
        assert(dec_val(s.subrange(0, i)) <= dec_val(t));
        lemma_dec_val_prefix(s, i + 1);
    }
}

/// A well-formed identifier string: non-empty, all decimal digits, and of
/// a value that fits in 64 bits.
pub open spec fn id_parses(s: Seq<char>) -> bool {
    s.len() > 0 && all_digits(s) && dec_val(s) <= u64::MAX
}

/// The value of a well-formed identifier string.
pub open spec fn id_value(s: Seq<char>) -> u64 {
    dec_val(s) as u64
}

/// Parses a record identifier: a non-empty string of decimal digits whose
/// value fits in 64 bits. Returns `None` on anything else.
pub fn parse_id(s: &str) -> (r: Option<u64>)
    ensures
        match r {
            Some(n) => id_parses(s@) && n == id_value(s@),
            None => !id_parses(s@),
        },
{
    let len = s.unicode_len();
    if len == 0 {
        return None;
    }
    let mut acc: u64 = 0;
    let mut i: usize = 0;
    while i < len
        invariant
            len == s@.len(),
            0 <= i <= len,
            all_digits(s@.subrange(0, i as int)),
            acc == dec_val(s@.subrange(0, i as int)),
        decreases len - i,
    {
        let c = s.get_char(i);
        if (c as u32) < ('0' as u32) || (c as u32) > ('9' as u32) {
            assert(!is_digit(s@[i as int]));
            return None;
        }
        let d: u64 = ((c as u32) - ('0' as u32)) as u64;
        proof {
            assert(s@.subrange(0, i + 1).drop_last() =~= s@.subrange(0, i as int));
            assert(s@.subrange(0, i + 1).last() == s@[i as int]);
        }
        if acc > (u64::MAX - d) / 10 {
            proof {
                assert(dec_val(s@.subrange(0, i + 1)) > u64::MAX) by {
                    assert(acc * 10 + d > u64::MAX) by (nonlinear_arith)
                        requires
                            acc > (u64::MAX - d) / 10,
                            d <= 9,
                    ;
                };
                lemma_dec_val_prefix(s@, i + 1);
            }
            return None;
        }
        assert(acc * 10 + d <= u64::MAX) by (nonlinear_arith)
            requires
                acc <= (u64::MAX - d) / 10,
                d <= 9,
        ;
        acc = acc * 10 + d;
        i += 1;
    }
    proof {
        assert(s@.subrange(0, len as int) =~= s@);
    }
    Some(acc)
}

/// The "Bearer " scheme prefix of the Authorization header.
pub open spec fn has_bearer_prefix(s: Seq<char>) -> bool {
    s.len() >= 7 && s.subrange(0, 7) == "Bearer "@
}

/// Takes the bearer token out of the Authorization header: the part after
/// the "Bearer " prefix. Fails with an authorization error when the header
/// is absent or the prefix is wrong.
pub fn extract_token(header: Option<&str>) -> (r: AppResult<String>)
    ensures
        match r {
            Ok(tok) => header matches Some(h) && has_bearer_prefix(h@) && tok@ == h@.skip(7),
            Err(e) => e.is_unauthorized() && (header matches Some(h) ==> !has_bearer_prefix(h@)),
        },
{
    proof {
        reveal_strlit("Bearer ");
    }
    match header {
        None => Err(AppError::Unauthorized(String::from_str("Falta header Authorization"))),
        Some(h) => {
            let len = h.unicode_len();
            if len < 7 {
                return Err(
                    AppError::Unauthorized(String::from_str("Formato de token inválido")),
                );
            }
            let ok = h.get_char(0) == 'B' && h.get_char(1) == 'e' && h.get_char(2) == 'a'
                && h.get_char(3) == 'r' && h.get_char(4) == 'e' && h.get_char(5) == 'r'
                && h.get_char(6) == ' ';
            if !ok {
                proof {
                    assert(h@.subrange(0, 7) != "Bearer "@) by {
                        if h@.subrange(0, 7) == "Bearer "@ {
                            assert(forall|k: int|
                                0 <= k < 7 ==> h@.subrange(0, 7)[k] == #[trigger] h@[k]);
                            assert(h@[0] == "Bearer "@[0] && h@[1] == "Bearer "@[1] && h@[2]
                                == "Bearer "@[2] && h@[3] == "Bearer "@[3] && h@[4]
                                == "Bearer "@[4] && h@[5] == "Bearer "@[5] && h@[6]
                                == "Bearer "@[6]);
                        }
                    };
                }
                return Err(
                    AppError::Unauthorized(String::from_str("Formato de token inválido")),
                );
            }
            proof {
                assert(h@.subrange(0, 7) =~= "Bearer "@);
            }
            let tok = h.substring_char(7, len);
            assert(tok@ =~= h@.skip(7));
            Ok(String::from_str(tok))
        },
    }
}

} // verus!
