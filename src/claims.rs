//! The claims that a token carries, and their JSON text: the shape
//! `{"user":{"id":"<uuid>"},"jti":"<uuid>","exp":<seconds>}`, with the user
//! id and the token id written as lower-case hyphenated UUIDs and the expiry
//! in Unix seconds.
use vstd::prelude::*;
use vstd::string::*;
use crate::text::{chars_of, text_at};

verus! {

/// The user a token speaks for.
#[derive(Clone, Copy, Debug, PartialEq, Eq, Structural)]
pub struct UserData {
    /// The user's UUID as a 128-bit big-endian value.
    pub id: u128,
}

/// What a token asserts: who, which issue it comes from, and until when
/// (Unix seconds).
#[derive(Clone, Copy, Debug, PartialEq, Eq, Structural)]
pub struct Claims {
    pub user: UserData,
    /// Identifier of the issue: the two tokens of one login share it, and
    /// each refresh gives its access token a new one.
    pub jti: u128,
    pub exp: u64,
}

// ---------------------------------------------------------------------------
// UUID text

pub open spec fn lower_hex_digits() -> Seq<char> {
    seq!['0', '1', '2', '3', '4', '5', '6', '7', '8', '9', 'a', 'b', 'c', 'd', 'e', 'f']
}

/// The `k`-th hex digit (0 = most significant) of a 128-bit value.
pub open spec fn nibble(id: u128, k: int) -> int {
    ((id >> ((124 - 4 * k) as u128)) & 15u128) as int
}

/// Which of the 32 hex digits stands at position `i` of the hyphenated form.
pub open spec fn digit_index(i: int) -> int {
    if i < 8 {
        i
    } else if i < 13 {
        i - 1
    } else if i < 18 {
        i - 2
    } else if i < 23 {
        i - 3
    } else {
        i - 4
    }
}

/// The lower-case hyphenated form `xxxxxxxx-xxxx-xxxx-xxxx-xxxxxxxxxxxx`.
pub open spec fn hyphenated(id: u128) -> Seq<char> {
    Seq::new(
        36,
        |i: int|
            if i == 8 || i == 13 || i == 18 || i == 23 {
                '-'
            } else {
                lower_hex_digits()[nibble(id, digit_index(i))]
            },
    )
}

/// What `uuid::Uuid::parse_str` makes of a text, as a 128-bit value.
pub uninterp spec fn uuid_parse_of(s: Seq<char>) -> Option<u128>;

/// Relies on `uuid::Uuid::hyphenated` (through `Display`): the lower-case
/// hyphenated form of the UUID whose big-endian value is `id`.
#[verifier::external_body]
pub(crate) fn uuid_text(id: u128) -> (r: String)
    ensures
        r@ == hyphenated(id),
{
    uuid::Uuid::from_u128(id).hyphenated().to_string()
}

/// Relies on `uuid::Uuid::parse_str`, which accepts among others the
/// hyphenated form that `uuid_text` writes, and reads it back to its value.
#[verifier::external_body]
pub(crate) fn parse_uuid(s: &str) -> (r: Option<u128>)
    ensures
        r == uuid_parse_of(s@),
        forall|x: u128| #[trigger] hyphenated(x) == s@ ==> r == Some(x),
{
    uuid::Uuid::parse_str(s).ok().map(|u| u.as_u128())
}

proof fn lemma_hex_digit_injective(a: int, b: int)
    requires
        0 <= a < 16,
        0 <= b < 16,
        lower_hex_digits()[a] == lower_hex_digits()[b],
    ensures
        a == b,
{
    let t = lower_hex_digits();
    assert(t[0] == '0' && t[1] == '1' && t[2] == '2' && t[3] == '3' && t[4] == '4' && t[5] == '5'
        && t[6] == '6' && t[7] == '7' && t[8] == '8' && t[9] == '9' && t[10] == 'a' && t[11] == 'b'
        && t[12] == 'c' && t[13] == 'd' && t[14] == 'e' && t[15] == 'f');
}

proof fn lemma_nibble_bound(x: u128, shift: u128)
    ensures
        (x >> shift) & 15u128 < 16,
{
    assert((x >> shift) & 15u128 < 16) by (bit_vector);
}

/// Two hyphenated forms that agree at position `p`, a digit position
/// whose digit sits `shift` bits up, agree on that digit.
proof fn lemma_same_nibble(x: u128, y: u128, p: int, shift: u128)
    requires
        hyphenated(x) == hyphenated(y),
        0 <= p < 36,
        p != 8 && p != 13 && p != 18 && p != 23,
        shift == 124 - 4 * digit_index(p),
    ensures
        (x >> shift) & 15u128 == (y >> shift) & 15u128,
{
    assert(0 <= digit_index(p) < 32);
    assert(hyphenated(x)[p] == lower_hex_digits()[nibble(x, digit_index(p))]);
    assert(hyphenated(y)[p] == lower_hex_digits()[nibble(y, digit_index(p))]);
    assert(nibble(x, digit_index(p)) == ((x >> shift) & 15u128) as int);
    assert(nibble(y, digit_index(p)) == ((y >> shift) & 15u128) as int);
    lemma_nibble_bound(x, shift);
    lemma_nibble_bound(y, shift);
    lemma_hex_digit_injective(nibble(x, digit_index(p)), nibble(y, digit_index(p)));
}

proof fn lemma_nibbles_determine(x: u128, y: u128)
    requires
        (x >> 124u128) & 15u128 == (y >> 124u128) & 15u128,
        (x >> 120u128) & 15u128 == (y >> 120u128) & 15u128,
        (x >> 116u128) & 15u128 == (y >> 116u128) & 15u128,
        (x >> 112u128) & 15u128 == (y >> 112u128) & 15u128,
        (x >> 108u128) & 15u128 == (y >> 108u128) & 15u128,
        (x >> 104u128) & 15u128 == (y >> 104u128) & 15u128,
        (x >> 100u128) & 15u128 == (y >> 100u128) & 15u128,
        (x >> 96u128) & 15u128 == (y >> 96u128) & 15u128,
        (x >> 92u128) & 15u128 == (y >> 92u128) & 15u128,
        (x >> 88u128) & 15u128 == (y >> 88u128) & 15u128,
        (x >> 84u128) & 15u128 == (y >> 84u128) & 15u128,
        (x >> 80u128) & 15u128 == (y >> 80u128) & 15u128,
        (x >> 76u128) & 15u128 == (y >> 76u128) & 15u128,
        (x >> 72u128) & 15u128 == (y >> 72u128) & 15u128,
        (x >> 68u128) & 15u128 == (y >> 68u128) & 15u128,
        (x >> 64u128) & 15u128 == (y >> 64u128) & 15u128,
        (x >> 60u128) & 15u128 == (y >> 60u128) & 15u128,
        (x >> 56u128) & 15u128 == (y >> 56u128) & 15u128,
        (x >> 52u128) & 15u128 == (y >> 52u128) & 15u128,
        (x >> 48u128) & 15u128 == (y >> 48u128) & 15u128,
        (x >> 44u128) & 15u128 == (y >> 44u128) & 15u128,
        (x >> 40u128) & 15u128 == (y >> 40u128) & 15u128,
        (x >> 36u128) & 15u128 == (y >> 36u128) & 15u128,
        (x >> 32u128) & 15u128 == (y >> 32u128) & 15u128,
        (x >> 28u128) & 15u128 == (y >> 28u128) & 15u128,
        (x >> 24u128) & 15u128 == (y >> 24u128) & 15u128,
        (x >> 20u128) & 15u128 == (y >> 20u128) & 15u128,
        (x >> 16u128) & 15u128 == (y >> 16u128) & 15u128,
        (x >> 12u128) & 15u128 == (y >> 12u128) & 15u128,
        (x >> 8u128) & 15u128 == (y >> 8u128) & 15u128,
        (x >> 4u128) & 15u128 == (y >> 4u128) & 15u128,
        (x >> 0u128) & 15u128 == (y >> 0u128) & 15u128,
    ensures
        x == y,
{
    assert(x == y) by (bit_vector)
        requires
            (x >> 124u128) & 15u128 == (y >> 124u128) & 15u128,
            (x >> 120u128) & 15u128 == (y >> 120u128) & 15u128,
            (x >> 116u128) & 15u128 == (y >> 116u128) & 15u128,
            (x >> 112u128) & 15u128 == (y >> 112u128) & 15u128,
            (x >> 108u128) & 15u128 == (y >> 108u128) & 15u128,
            (x >> 104u128) & 15u128 == (y >> 104u128) & 15u128,
            (x >> 100u128) & 15u128 == (y >> 100u128) & 15u128,
            (x >> 96u128) & 15u128 == (y >> 96u128) & 15u128,
            (x >> 92u128) & 15u128 == (y >> 92u128) & 15u128,
            (x >> 88u128) & 15u128 == (y >> 88u128) & 15u128,
            (x >> 84u128) & 15u128 == (y >> 84u128) & 15u128,
            (x >> 80u128) & 15u128 == (y >> 80u128) & 15u128,
            (x >> 76u128) & 15u128 == (y >> 76u128) & 15u128,
            (x >> 72u128) & 15u128 == (y >> 72u128) & 15u128,
            (x >> 68u128) & 15u128 == (y >> 68u128) & 15u128,
            (x >> 64u128) & 15u128 == (y >> 64u128) & 15u128,
            (x >> 60u128) & 15u128 == (y >> 60u128) & 15u128,
            (x >> 56u128) & 15u128 == (y >> 56u128) & 15u128,
            (x >> 52u128) & 15u128 == (y >> 52u128) & 15u128,
            (x >> 48u128) & 15u128 == (y >> 48u128) & 15u128,
            (x >> 44u128) & 15u128 == (y >> 44u128) & 15u128,
            (x >> 40u128) & 15u128 == (y >> 40u128) & 15u128,
            (x >> 36u128) & 15u128 == (y >> 36u128) & 15u128,
            (x >> 32u128) & 15u128 == (y >> 32u128) & 15u128,
            (x >> 28u128) & 15u128 == (y >> 28u128) & 15u128,
            (x >> 24u128) & 15u128 == (y >> 24u128) & 15u128,
            (x >> 20u128) & 15u128 == (y >> 20u128) & 15u128,
            (x >> 16u128) & 15u128 == (y >> 16u128) & 15u128,
            (x >> 12u128) & 15u128 == (y >> 12u128) & 15u128,
            (x >> 8u128) & 15u128 == (y >> 8u128) & 15u128,
            (x >> 4u128) & 15u128 == (y >> 4u128) & 15u128,
            (x >> 0u128) & 15u128 == (y >> 0u128) & 15u128,
    ;
}

/// Distinct values have distinct hyphenated forms.
pub proof fn lemma_hyphenated_injective(x: u128, y: u128)
    requires
        hyphenated(x) == hyphenated(y),
    ensures
        x == y,
{
    lemma_same_nibble(x, y, 0, 124u128);
    lemma_same_nibble(x, y, 1, 120u128);
    lemma_same_nibble(x, y, 2, 116u128);
    lemma_same_nibble(x, y, 3, 112u128);
    lemma_same_nibble(x, y, 4, 108u128);
    lemma_same_nibble(x, y, 5, 104u128);
    lemma_same_nibble(x, y, 6, 100u128);
    lemma_same_nibble(x, y, 7, 96u128);
    lemma_same_nibble(x, y, 9, 92u128);
    lemma_same_nibble(x, y, 10, 88u128);
    lemma_same_nibble(x, y, 11, 84u128);
    lemma_same_nibble(x, y, 12, 80u128);
    lemma_same_nibble(x, y, 14, 76u128);
    lemma_same_nibble(x, y, 15, 72u128);
    lemma_same_nibble(x, y, 16, 68u128);
    lemma_same_nibble(x, y, 17, 64u128);
    lemma_same_nibble(x, y, 19, 60u128);
    lemma_same_nibble(x, y, 20, 56u128);
    lemma_same_nibble(x, y, 21, 52u128);
    lemma_same_nibble(x, y, 22, 48u128);
    lemma_same_nibble(x, y, 24, 44u128);
    lemma_same_nibble(x, y, 25, 40u128);
    lemma_same_nibble(x, y, 26, 36u128);
    lemma_same_nibble(x, y, 27, 32u128);
    lemma_same_nibble(x, y, 28, 28u128);
    lemma_same_nibble(x, y, 29, 24u128);
    lemma_same_nibble(x, y, 30, 20u128);
    lemma_same_nibble(x, y, 31, 16u128);
    lemma_same_nibble(x, y, 32, 12u128);
    lemma_same_nibble(x, y, 33, 8u128);
    lemma_same_nibble(x, y, 34, 4u128);
    lemma_same_nibble(x, y, 35, 0u128);
    lemma_nibbles_determine(x, y);
}

/// Relies on `uuid::Uuid::new_v4` and `Uuid::as_u128`: a UUID made of
/// random bytes, as its 128-bit value. Nothing is stated of the value.
#[verifier::external_body]
pub(crate) fn random_uuid() -> (r: u128) {
    uuid::Uuid::new_v4().as_u128()
}

// ---------------------------------------------------------------------------
// Decimal text

pub open spec fn decimal_digits() -> Seq<char> {
    seq!['0', '1', '2', '3', '4', '5', '6', '7', '8', '9']
}

pub open spec fn is_digit(c: char) -> bool {
    '0' <= c && c <= '9'
}

pub open spec fn digit_value(c: char) -> int {
    c as int - '0' as int
}

/// The shortest decimal form of `n`.
pub open spec fn decimal(n: nat) -> Seq<char>
    decreases n,
{
    if n < 10 {
        seq![decimal_digits()[n as int]]
    } else {
        decimal(n / 10).push(decimal_digits()[(n % 10) as int])
    }
}

/// The value of a string of decimal digits.
pub open spec fn decimal_value(s: Seq<char>) -> nat
    decreases s.len(),
{
    if s.len() == 0 {
        0
    } else {
        (decimal_value(s.drop_last()) * 10 + digit_value(s.last())) as nat
    }
}

/// Digits only, at least one, and no leading zero.
pub open spec fn is_canonical_decimal(s: Seq<char>) -> bool {
    &&& s.len() >= 1
    &&& forall|i: int| 0 <= i < s.len() ==> #[trigger] is_digit(s[i])
    &&& (s.len() == 1 || s[0] != '0')
}

/// The one-character text of a decimal digit.
fn digit_text(d: u64) -> (r: &'static str)
    requires
        d < 10,
    ensures
        r@ == seq![decimal_digits()[d as int]],
{
    proof {
        reveal_strlit("0");
        reveal_strlit("1");
        reveal_strlit("2");
        reveal_strlit("3");
        reveal_strlit("4");
        reveal_strlit("5");
        reveal_strlit("6");
        reveal_strlit("7");
        reveal_strlit("8");
        reveal_strlit("9");
    }
    match d {
        0 => "0",
        1 => "1",
        2 => "2",
        3 => "3",
        4 => "4",
        5 => "5",
        6 => "6",
        7 => "7",
        8 => "8",
        _ => "9",
    }
}

/// Appends the decimal form of `n`.
fn push_decimal(out: &mut String, n: u64)
    ensures
        final(out)@ == old(out)@ + decimal(n as nat),
    decreases n,
{
    if n >= 10 {
        push_decimal(out, n / 10);
    }
    out.append(digit_text(n % 10));
    proof {
        if n >= 10 {
            assert(decimal(n as nat) == decimal((n / 10) as nat).push(decimal_digits()[(n % 10) as int]));
        }
    }
}

/// The decimal form of `n`.
fn decimal_text(n: u64) -> (r: String)
    ensures
        r@ == decimal(n as nat),
{
    let mut s = String::new();
    push_decimal(&mut s, n);
    assert(s@ =~= decimal(n as nat));
    s
}

proof fn lemma_digit_char(d: int)
    requires
        0 <= d < 10,
    ensures
        is_digit(decimal_digits()[d]),
        digit_value(decimal_digits()[d]) == d,
        d != 0 ==> decimal_digits()[d] != '0',
{
}

/// Every decimal form is canonical and reads back to its value.
pub proof fn lemma_decimal_round_trip(n: nat)
    ensures
        is_canonical_decimal(decimal(n)),
        decimal_value(decimal(n)) == n,
        n != 0 ==> decimal(n)[0] != '0',
    decreases n,
{
    if n < 10 {
        lemma_digit_char(n as int);
        assert(decimal(n).drop_last() =~= Seq::<char>::empty());
        assert(decimal_value(Seq::<char>::empty()) == 0);
    } else {
        lemma_decimal_round_trip(n / 10);
        lemma_digit_char((n % 10) as int);
        let d = decimal(n);
        assert(d.drop_last() =~= decimal(n / 10));
        assert(d.last() == decimal_digits()[(n % 10) as int]);
        assert((n / 10) * 10 + n % 10 == n);
        assert forall|i: int| 0 <= i < d.len() implies #[trigger] is_digit(d[i]) by {
            if i < d.len() - 1 {
                assert(d[i] == decimal(n / 10)[i]);
            }
        }
    }
}

/// A longer prefix of a digit string is worth at least as much.
proof fn lemma_decimal_value_prefix(s: Seq<char>, i: int, j: int)
    requires
        0 <= i <= j <= s.len(),
        forall|k: int| 0 <= k < s.len() ==> #[trigger] is_digit(s[k]),
    ensures
        decimal_value(s.subrange(0, i)) <= decimal_value(s.subrange(0, j)),
    decreases j - i,
{
    if i < j {
        lemma_decimal_value_prefix(s, i, j - 1);
        assert(s.subrange(0, j).drop_last() =~= s.subrange(0, j - 1));
        assert(is_digit(s[j - 1]));
    }
}

// ---------------------------------------------------------------------------
// Claims text

pub open spec fn id_open() -> Seq<char> {
    "{\"user\":{\"id\":\""@
}

pub open spec fn jti_open() -> Seq<char> {
    "\"},\"jti\":\""@
}

pub open spec fn exp_open() -> Seq<char> {
    "\",\"exp\":"@
}

pub open spec fn claims_close() -> Seq<char> {
    "}"@
}

/// The JSON text of a set of claims.
pub open spec fn claims_text(c: Claims) -> Seq<char> {
    id_open() + hyphenated(c.user.id) + jti_open() + hyphenated(c.jti) + exp_open() + decimal(
        c.exp as nat,
    ) + claims_close()
}

/// The digits of the expiry in a claims text.
pub open spec fn exp_digits(s: Seq<char>) -> Seq<char> {
    s.subrange(105, s.len() - 1)
}

/// The frame of a claims text: the fixed parts in place, and an expiry that
/// is a canonical decimal fitting in a `u64`.
pub open spec fn claims_shape(s: Seq<char>) -> bool {
    &&& s.len() >= 107
    &&& s.subrange(0, 15) == id_open()
    &&& s.subrange(51, 61) == jti_open()
    &&& s.subrange(97, 105) == exp_open()
    &&& s.last() == '}'
    &&& is_canonical_decimal(exp_digits(s))
    &&& decimal_value(exp_digits(s)) <= u64::MAX
}

/// The claims a text states, when it has the shape that `claims_text` writes
/// and its user id is a UUID.
pub open spec fn claims_from_text(s: Seq<char>) -> Option<Claims> {
    if claims_shape(s) && uuid_parse_of(s.subrange(15, 51)) is Some && uuid_parse_of(
        s.subrange(61, 97),
    ) is Some {
        Some(
            Claims {
                user: UserData { id: uuid_parse_of(s.subrange(15, 51))->0 },
                jti: uuid_parse_of(s.subrange(61, 97))->0,
                exp: decimal_value(exp_digits(s)) as u64,
            },
        )
    } else {
        None
    }
}

/// Every claims text has the frame that `claims_from_text` reads.
pub proof fn lemma_claims_text_shape(c: Claims)
    ensures
        claims_shape(claims_text(c)),
        claims_text(c).subrange(15, 51) == hyphenated(c.user.id),
        claims_text(c).subrange(61, 97) == hyphenated(c.jti),
        exp_digits(claims_text(c)) == decimal(c.exp as nat),
        decimal_value(exp_digits(claims_text(c))) == c.exp,
        claims_text(c)[0] == '{',
        claims_text(c).last() == '}',
{
    reveal_strlit("{\"user\":{\"id\":\"");
    reveal_strlit("\"},\"jti\":\"");
    reveal_strlit("\",\"exp\":");
    reveal_strlit("}");
    lemma_decimal_round_trip(c.exp as nat);
    let t = claims_text(c);
    assert(t.subrange(0, 15) =~= id_open());
    assert(t.subrange(15, 51) =~= hyphenated(c.user.id));
    assert(t.subrange(51, 61) =~= jti_open());
    assert(t.subrange(61, 97) =~= hyphenated(c.jti));
    assert(t.subrange(97, 105) =~= exp_open());
    assert(exp_digits(t) =~= decimal(c.exp as nat));
}

/// Distinct claims have distinct texts.
pub proof fn lemma_claims_text_injective(c: Claims, d: Claims)
    requires
        claims_text(c) == claims_text(d),
    ensures
        c == d,
{
    lemma_claims_text_shape(c);
    lemma_claims_text_shape(d);
    lemma_hyphenated_injective(c.user.id, d.user.id);
    lemma_hyphenated_injective(c.jti, d.jti);
}

/// Writes claims as JSON text.
pub fn render_claims(c: &Claims) -> (r: String)
    ensures
        r@ == claims_text(*c),
{
    let mut s = String::from_str("{\"user\":{\"id\":\"");
    let id = uuid_text(c.user.id);
    s.append(id.as_str());
    s.append("\"},\"jti\":\"");
    let jti = uuid_text(c.jti);
    s.append(jti.as_str());
    s.append("\",\"exp\":");
    let exp = decimal_text(c.exp);
    s.append(exp.as_str());
    s.append("}");
    s
}

/// Reads the value of the decimal digits `v[from..to]`, if it fits in a `u64`.
fn read_decimal(v: &Vec<char>, from: usize, to: usize) -> (r: Option<u64>)
    requires
        from <= to <= v@.len(),
        forall|k: int| from <= k < to ==> #[trigger] is_digit(v@[k]),
    ensures
        r is Some <==> decimal_value(v@.subrange(from as int, to as int)) <= u64::MAX,
        r is Some ==> r->0 == decimal_value(v@.subrange(from as int, to as int)),
{
    let ghost d = v@.subrange(from as int, to as int);
    let mut acc: u64 = 0;
    let mut i: usize = from;
    while i < to
        invariant
            from <= i <= to <= v@.len(),
            d == v@.subrange(from as int, to as int),
            forall|k: int| from <= k < to ==> #[trigger] is_digit(v@[k]),
            acc == decimal_value(d.subrange(0, i - from)),
        decreases to - i,
    {
        assert(d.subrange(0, i - from + 1).drop_last() =~= d.subrange(0, i - from));
        assert(is_digit(v@[i as int]));
        let digit = (v[i] as u32 - '0' as u32) as u64;
        let next = match acc.checked_mul(10) {
            Some(m) => m.checked_add(digit),
            None => None,
        };
        match next {
            Some(n) => {
                acc = n;
            },
            None => {
                proof {
                    assert forall|k: int| 0 <= k < d.len() implies #[trigger] is_digit(d[k]) by {
                        assert(d[k] == v@[from + k]);
                    }
                    lemma_decimal_value_prefix(d, i - from + 1, d.len() as int);
                    assert(d.subrange(0, d.len() as int) =~= d);
                }
                return None;
            },
        }
        i = i + 1;
    }
    assert(d.subrange(0, to - from) =~= d);
    Some(acc)
}

/// Reads claims back from the JSON text that `render_claims` writes.
pub fn parse_claims(s: &str) -> (r: Option<Claims>)
    ensures
        r == claims_from_text(s@),
        forall|c: Claims| #[trigger] claims_text(c) == s@ ==> r == Some(c),
{
    proof {
        reveal_strlit("{\"user\":{\"id\":\"");
        reveal_strlit("\"},\"jti\":\"");
        reveal_strlit("\",\"exp\":");
        reveal_strlit("}");
        assert forall|c: Claims| #[trigger] claims_text(c) == s@ implies claims_shape(s@)
            && s@.subrange(15, 51) == hyphenated(c.user.id) && s@.subrange(61, 97) == hyphenated(
            c.jti,
        ) && decimal_value(exp_digits(s@)) == c.exp by {
            lemma_claims_text_shape(c);
        }
    }
    let v = chars_of(s);
    let n = v.len();
    if n < 107 || !text_at(&v, 0, "{\"user\":{\"id\":\"") || !text_at(&v, 51, "\"},\"jti\":\"")
        || !text_at(&v, 97, "\",\"exp\":") || v[n - 1] != '}' {
        return None;
    }
    if v[105] == '0' && n - 1 > 106 {
        return None;
    }
    let mut i: usize = 105;
    while i < n - 1
        invariant
            v@ == s@,
            n == v@.len(),
            107 <= n,
            105 <= i <= n - 1,
            forall|k: int| 105 <= k < i ==> #[trigger] is_digit(v@[k]),
            forall|c: Claims| #[trigger] claims_text(c) == s@ ==> claims_shape(s@),
        decreases n - 1 - i,
    {
        if !('0' <= v[i] && v[i] <= '9') {
            assert(!is_digit(exp_digits(s@)[i - 105]));
            return None;
        }
        i = i + 1;
    }
    assert(exp_digits(s@) =~= v@.subrange(105, n - 1));
    let exp = match read_decimal(&v, 105, n - 1) {
        Some(e) => e,
        None => {
            return None;
        },
    };
    let id = match parse_uuid(s.substring_char(15, 51)) {
        Some(x) => x,
        None => {
            return None;
        },
    };
    let jti = match parse_uuid(s.substring_char(61, 97)) {
        Some(x) => x,
        None => {
            return None;
        },
    };
    Some(Claims { user: UserData { id }, jti, exp })
}

} // verus!
