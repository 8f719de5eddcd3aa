//! Text building blocks shared by the backend logic: decimal numbers, JSON
//! string literals and objects, and the base64 encoding of payloads.
use base64::Engine;
use vstd::prelude::*;

verus! {

/// The decimal digit character for `d` (`0 <= d < 10`).
pub open spec fn digit_char(d: int) -> char {
    ('0' as int + d) as char
}

/// The decimal digits of `n`, most significant first, without leading zeros.
pub open spec fn nat_decimal(n: nat) -> Seq<char>
    decreases n,
{
    if n < 10 {
        seq![digit_char(n as int)]
    } else {
        nat_decimal(n / 10).push(digit_char((n % 10) as int))
    }
}

/// The decimal text of an integer, with a leading `-` when it is negative.
pub open spec fn int_decimal(n: int) -> Seq<char> {
    if n < 0 {
        seq!['-'] + nat_decimal((-n) as nat)
    } else {
        nat_decimal(n as nat)
    }
}

/// The text of one decimal digit.
fn digit_str(d: u64) -> (s: &'static str)
    requires
        d < 10,
    ensures
        s@ == seq![digit_char(d as int)],
{
    proof {
        reveal_strlit("0");
        reveal_strlit("1");
        reveal_strlit("2");
        reveal_strlit("3");
        reveal_strlit("4");
        reveal_strlit("5");
        reveal_strlit("6");
        reveal_strlit("7");
        reveal_strlit("8");
        reveal_strlit("9");
    }
    match d {
        0 => "0",
        1 => "1",
        2 => "2",
        3 => "3",
        4 => "4",
        5 => "5",
        6 => "6",
        7 => "7",
        8 => "8",
        _ => "9",
    }
}

/// Appends the decimal digits of `n` to `out`.
pub fn push_u64(out: &mut String, n: u64)
    ensures
        final(out)@ == old(out)@ + nat_decimal(n as nat),
    decreases n,
{
    if n >= 10 {
        push_u64(out, n / 10);
    }
    let d = digit_str(n % 10);
    out.append(d);
    proof {
        assert(old(out)@ + nat_decimal(n as nat) =~= (if n >= 10 {
            old(out)@ + nat_decimal((n / 10) as nat)
        } else {
            old(out)@
        }) + seq![digit_char((n % 10) as int)]);
    }
}

/// Appends the decimal text of `n` to `out`.
pub fn push_i64(out: &mut String, n: i64)
    ensures
        final(out)@ == old(out)@ + int_decimal(n as int),
{
    if n < 0 {
        proof {
            reveal_strlit("-");
        }
        out.append("-");
        let m: u64 = if n == i64::MIN {
            9_223_372_036_854_775_808u64
        } else {
            (-n) as u64
        };
        push_u64(out, m);
        assert(old(out)@ + int_decimal(n as int) =~= old(out)@ + seq!['-'] + nat_decimal(
            m as nat,
        ));
    } else {
        push_u64(out, n as u64);
    }
}

/// The decimal text of `n`.
pub fn i64_to_decimal(n: i64) -> (s: String)
    ensures
        s@ == int_decimal(n as int),
{
    let mut s = String::new();
    push_i64(&mut s, n);
    assert(s@ =~= int_decimal(n as int));
    s
}

/// The JSON string literal that `serde_json` writes for the text `s`
/// (quoted, with the characters that JSON requires escaped).
pub uninterp spec fn json_string_literal(s: Seq<char>) -> Seq<char>;

/// The padded base64 text (standard alphabet) of `bytes`.
pub uninterp spec fn base64_standard(bytes: Seq<u8>) -> Seq<char>;

/// What the standard base64 engine decodes `text` to, if it accepts it.
pub uninterp spec fn base64_standard_decoded(text: Seq<char>) -> Option<Seq<u8>>;

/// `serde_json` rendering of a string value: the contract says only that the
/// result is the JSON literal named `json_string_literal` of the text.
#[verifier::external_body]
pub(crate) fn json_quote(s: &str) -> (r: String)
    ensures
        r@ == json_string_literal(s@),
{
    serde_json::Value::String(s.to_string()).to_string()
}

/// The JSON text, as `serde_json` writes a value, of the member `key` of the
/// JSON object that `text` holds; `None` when `text` is not JSON or holds no
/// such member.
pub uninterp spec fn json_member_of(text: Seq<char>, key: Seq<char>) -> Option<Seq<char>>;

/// The string that the JSON text `text` holds, when it is a JSON string.
pub uninterp spec fn json_string_of(text: Seq<char>) -> Option<Seq<char>>;

/// The message of the error that `serde_json` reports for `text`; `None`
/// when `text` is JSON.
pub uninterp spec fn json_parse_error_of(text: Seq<char>) -> Option<Seq<char>>;

/// `serde_json::from_str::<Value>`, `Value::get(key)` and `to_string` of the
/// member: the contract says that the result is the text named
/// `json_member_of`.
#[verifier::external_body]
pub(crate) fn read_json_member(text: &str, key: &str) -> (r: Option<String>)
    ensures
        match r {
            Some(m) => json_member_of(text@, key@) == Some(m@),
            None => json_member_of(text@, key@) is None,
        },
{
    match serde_json::from_str::<serde_json::Value>(text) {
        Ok(v) => match v.get(key) {
            Some(m) => Some(m.to_string()),
            None => None,
        },
        Err(_) => None,
    }
}

/// `serde_json::from_str::<Value>` read as a string: the contract says that
/// the result is the string named `json_string_of`.
#[verifier::external_body]
pub(crate) fn read_json_string(text: &str) -> (r: Option<String>)
    ensures
        match r {
            Some(s) => json_string_of(text@) == Some(s@),
            None => json_string_of(text@) is None,
        },
{
    match serde_json::from_str::<serde_json::Value>(text) {
        Ok(serde_json::Value::String(s)) => Some(s),
        _ => None,
    }
}

/// `serde_json::from_str::<Value>` and the `Display` text of its error: the
/// contract says that the result is the message named `json_parse_error_of`.
#[verifier::external_body]
pub(crate) fn read_json_parse_error(text: &str) -> (r: Option<String>)
    ensures
        match r {
            Some(e) => json_parse_error_of(text@) == Some(e@),
            None => json_parse_error_of(text@) is None,
        },
{
    match serde_json::from_str::<serde_json::Value>(text) {
        Ok(_) => None,
        Err(e) => Some(e.to_string()),
    }
}

/// `base64::engine::general_purpose::STANDARD.encode`: the contract says that
/// the result is the padded standard base64 text of `bytes`, and that the same
/// engine decodes it back to `bytes`. (The engine panics only when the output
/// length overflows `usize`, which no slice that fits in memory reaches.)
#[verifier::external_body]
pub(crate) fn base64_encode(bytes: &[u8]) -> (r: String)
    ensures
        r@ == base64_standard(bytes@),
        base64_standard_decoded(r@) == Some(bytes@),
{
    base64::engine::general_purpose::STANDARD.encode(bytes)
}

/// `base64::engine::general_purpose::STANDARD.decode`: the contract says that
/// the result is the decoding named `base64_standard_decoded`, `None` when the
/// engine reports an error.
#[verifier::external_body]
pub(crate) fn base64_decode(text: &str) -> (r: Option<Vec<u8>>)
    ensures
        match r {
            Some(v) => base64_standard_decoded(text@) == Some(v@),
            None => base64_standard_decoded(text@) is None,
        },
{
    base64::engine::general_purpose::STANDARD.decode(text).ok()
}

/// The UTF-8 bytes of `s`.
pub fn utf8_bytes(s: &str) -> (r: Vec<u8>)
    ensures
        r@ == vstd::utf8::encode_utf8(s@),
{
    let b = s.as_bytes();
    let mut out: Vec<u8> = Vec::new();
    let mut i: usize = 0;
    while i < b.len()
        invariant
            i <= b@.len(),
            b@ == vstd::utf8::encode_utf8(s@),
            out@ == b@.take(i as int),
        decreases b@.len() - i,
    {
        out.push(b[i]);
        assert(b@.take(i + 1) == b@.take(i as int).push(b@[i as int]));
        i = i + 1;
    }
    assert(b@.take(b@.len() as int) == b@);
    out
}

/// The base64 text of the UTF-8 bytes of `s`.
pub fn base64_of_text(s: &str) -> (r: String)
    ensures
        r@ == base64_standard(vstd::utf8::encode_utf8(s@)),
        base64_standard_decoded(r@) == Some(vstd::utf8::encode_utf8(s@)),
{
    let bytes = utf8_bytes(s);
    base64_encode(bytes.as_slice())
}

/// A JSON object member `"key":value`, the value given as JSON text.
pub open spec fn json_member(key: Seq<char>, value: Seq<char>) -> Seq<char> {
    json_string_literal(key) + seq![':'] + value
}

/// Members joined by commas.
pub open spec fn json_join(members: Seq<Seq<char>>) -> Seq<char>
    decreases members.len(),
{
    if members.len() == 0 {
        Seq::empty()
    } else if members.len() == 1 {
        members[0]
    } else {
        json_join(members.drop_last()) + seq![','] + members.last()
    }
}

/// A JSON object from members, in the given order: the compact text that
/// `serde_json` writes for an object (`{`, the members `"key":value` joined
/// by commas, `}`). Its maps keep keys sorted, so the payloads of this crate
/// give their members in key order.
pub open spec fn json_object(members: Seq<Seq<char>>) -> Seq<char> {
    seq!['{'] + json_join(members) + seq!['}']
}

/// Builds a JSON object incrementally, one member after the other.
pub struct JsonObjectWriter {
    text: String,
    empty: bool,
    members: Ghost<Seq<Seq<char>>>,
}

impl JsonObjectWriter {
    /// What has been written so far is `{` and the members joined by commas.
    pub closed spec fn wf(&self) -> bool {
        &&& self.text@ == seq!['{'] + json_join(self.members@)
        &&& self.empty == (self.members@.len() == 0)
    }

    /// The members written so far.
    pub closed spec fn members(&self) -> Seq<Seq<char>> {
        self.members@
    }

    /// An object with no members yet.
    pub fn new() -> (w: JsonObjectWriter)
        ensures
            w.wf(),
            w.members() == Seq::<Seq<char>>::empty(),
    {
        proof {
            reveal_strlit("{");
        }
        let mut text = String::new();
        text.append("{");
        let w = JsonObjectWriter { text, empty: true, members: Ghost(Seq::empty()) };
        assert(w.text@ =~= seq!['{'] + json_join(Seq::<Seq<char>>::empty()));
        w
    }

    /// Appends a member whose value is already JSON text.
    pub fn raw(&mut self, key: &str, value: &str)
        requires
            old(self).wf(),
        ensures
            final(self).wf(),
            final(self).members() == old(self).members().push(json_member(key@, value@)),
    {
        let ghost old_members = self.members@;
        let ghost old_text = self.text@;
        proof {
            reveal_strlit(",");
            reveal_strlit(":");
        }
        if !self.empty {
            self.text.append(",");
        }
        self.empty = false;
        let k = json_quote(key);
        self.text.append(k.as_str());
        self.text.append(":");
        self.text.append(value);
        let ghost m = json_member(key@, value@);
        self.members = Ghost(old_members.push(m));
        proof {
            let nm = old_members.push(m);
            assert(nm.drop_last() =~= old_members);
            if old_members.len() == 0 {
                assert(json_join(old_members) =~= Seq::<char>::empty());
                assert(self.text@ =~= seq!['{'] + json_join(nm));
            } else {
                assert(self.text@ =~= seq!['{'] + json_join(nm));
            }
        }
    }

    /// Appends a member whose value is a string.
    pub fn string(&mut self, key: &str, value: &str)
        requires
            old(self).wf(),
        ensures
            final(self).wf(),
            final(self).members() == old(self).members().push(
                json_member(key@, json_string_literal(value@)),
            ),
    {
        let v = json_quote(value);
        self.raw(key, v.as_str());
    }

    /// Appends a member whose value is an integer.
    pub fn integer(&mut self, key: &str, value: i64)
        requires
            old(self).wf(),
        ensures
            final(self).wf(),
            final(self).members() == old(self).members().push(
                json_member(key@, int_decimal(value as int)),
            ),
    {
        let v = i64_to_decimal(value);
        self.raw(key, v.as_str());
    }

    /// Closes the object and returns its text.
    pub fn finish(self) -> (r: String)
        requires
            self.wf(),
        ensures
            r@ == json_object(self.members()),
    {
        proof {
            reveal_strlit("}");
        }
        let mut text = self.text;
        text.append("}");
        text
    }
}

/// Whether two texts are equal.
pub fn str_eq(a: &str, b: &str) -> (r: bool)
    ensures
        r == (a@ == b@),
{
    let n = a.unicode_len();
    if n != b.unicode_len() {
        return false;
    }
    let mut i: usize = 0;
    while i < n
        invariant
            n == a@.len(),
            n == b@.len(),
            i <= n,
            forall|j: int| 0 <= j < i ==> a@[j] == b@[j],
        decreases n - i,
    {
        if a.get_char(i) != b.get_char(i) {
            return false;
        }
        i = i + 1;
    }
    assert(a@ =~= b@);
    true
}

/// The characters with the Unicode `White_Space` property, which
/// `char::is_whitespace` and `str::trim` go by.
pub open spec fn is_white_space(c: char) -> bool {
    let u = c as u32;
    ||| 0x09 <= u <= 0x0D
    ||| u == 0x20
    ||| u == 0x85
    ||| u == 0xA0
    ||| u == 0x1680
    ||| 0x2000 <= u <= 0x200A
    ||| u == 0x2028
    ||| u == 0x2029
    ||| u == 0x202F
    ||| u == 0x205F
    ||| u == 0x3000
}

/// Whether `c` has the Unicode `White_Space` property.
pub fn char_is_white_space(c: char) -> (r: bool)
    ensures
        r == is_white_space(c),
{
    let u = c as u32;
    (0x09 <= u && u <= 0x0D) || u == 0x20 || u == 0x85 || u == 0xA0 || u == 0x1680 || (0x2000 <= u
        && u <= 0x200A) || u == 0x2028 || u == 0x2029 || u == 0x202F || u == 0x205F || u == 0x3000
}

/// A text that is empty once white space is trimmed from both ends.
pub open spec fn is_blank_text(s: Seq<char>) -> bool {
    forall|i: int| 0 <= i < s.len() ==> is_white_space(#[trigger] s[i])
}

/// Whether `s.trim()` is empty: every character of `s` is white space.
pub fn is_blank(s: &str) -> (r: bool)
    ensures
        r == is_blank_text(s@),
{
    let n = s.unicode_len();
    let mut i: usize = 0;
    while i < n
        invariant
            n == s@.len(),
            i <= n,
            forall|j: int| 0 <= j < i ==> is_white_space(#[trigger] s@[j]),
        decreases n - i,
    {
        let c = s.get_char(i);
        if !char_is_white_space(c) {
            assert(!is_white_space(s@[i as int]));
            return false;
        }
        i = i + 1;
    }
    true
}

/// `s` with every trailing `c` removed.
pub open spec fn trim_end_char(s: Seq<char>, c: char) -> Seq<char>
    decreases s.len(),
{
    if s.len() > 0 && s.last() == c {
        trim_end_char(s.drop_last(), c)
    } else {
        s
    }
}

/// `s.trim_end_matches(c)` for one character `c`.
pub fn trim_end_matches_char(s: &str, c: char) -> (r: &str)
    ensures
        r@ == trim_end_char(s@, c),
{
    let mut k = s.unicode_len();
    assert(s@.subrange(0, k as int) =~= s@);
    while k > 0 && s.get_char(k - 1) == c
        invariant
            k <= s@.len(),
            trim_end_char(s@.subrange(0, k as int), c) == trim_end_char(s@, c),
        decreases k,
    {
        assert(s@.subrange(0, k as int).drop_last() =~= s@.subrange(0, k - 1));
        k = k - 1;
    }
    let r = s.substring_char(0, k);
    proof {
        if k > 0 {
            assert(s@.subrange(0, k as int).last() == s@[k - 1]);
        }
    }
    r
}

/// `c` with an ASCII capital letter made small.
pub open spec fn ascii_lower(c: char) -> char {
    if 'A' <= c && c <= 'Z' {
        ((c as u32) + 32) as char
    } else {
        c
    }
}

/// `s.to_ascii_lowercase()`.
pub open spec fn ascii_lowercase(s: Seq<char>) -> Seq<char> {
    s.map_values(|c: char| ascii_lower(c))
}

/// Whether `s.to_ascii_lowercase() == t`.
pub fn lowercase_equals(s: &str, t: &str) -> (r: bool)
    ensures
        r == (ascii_lowercase(s@) == t@),
{
    let n = s.unicode_len();
    if n != t.unicode_len() {
        assert(ascii_lowercase(s@).len() != t@.len());
        return false;
    }
    let mut i: usize = 0;
    while i < n
        invariant
            n == s@.len(),
            n == t@.len(),
            i <= n,
            forall|j: int| 0 <= j < i ==> ascii_lower(#[trigger] s@[j]) == t@[j],
        decreases n - i,
    {
        let c = s.get_char(i);
        let lc = if 'A' <= c && c <= 'Z' {
            ((c as u8) + 32) as char
        } else {
            c
        };
        if lc != t.get_char(i) {
            assert(ascii_lowercase(s@)[i as int] != t@[i as int]);
            return false;
        }
        i = i + 1;
    }
    assert(ascii_lowercase(s@) =~= t@);
    true
}

/// Whether every character is an ASCII decimal digit.
pub open spec fn all_digits(s: Seq<char>) -> bool {
    forall|i: int| 0 <= i < s.len() ==> '0' <= #[trigger] s[i] <= '9'
}

/// The value of a string of decimal digits.
pub open spec fn digits_value(s: Seq<char>) -> nat
    decreases s.len(),
{
    if s.len() == 0 {
        0
    } else {
        digits_value(s.drop_last()) * 10 + ((s.last() as u32) - ('0' as u32)) as nat
    }
}

/// The digits of an unsigned literal: an optional leading `+` is dropped.
pub open spec fn unsigned_digits(s: Seq<char>) -> Seq<char> {
    if s.len() > 0 && s[0] == '+' {
        s.subrange(1, s.len() as int)
    } else {
        s
    }
}

/// What `s.parse::<u64>()` gives: an optional `+` and at least one decimal
/// digit, whose value fits in `u64`.
pub open spec fn parsed_u64(s: Seq<char>) -> Option<u64> {
    let d = unsigned_digits(s);
    if d.len() > 0 && all_digits(d) && digits_value(d) <= u64::MAX {
        Some(digits_value(d) as u64)
    } else {
        None
    }
}

/// Parses an unsigned decimal integer as `str::parse::<u64>` does.
pub fn parse_u64(s: &str) -> (r: Option<u64>)
    ensures
        r == parsed_u64(s@),
{
    let n = s.unicode_len();
    let start: usize = if n > 0 && s.get_char(0) == '+' {
        1
    } else {
        0
    };
    if start >= n {
        assert(unsigned_digits(s@).len() == 0);
        return None;
    }
    let ghost d = unsigned_digits(s@);
    assert(d =~= s@.subrange(start as int, n as int));
    let mut value: u64 = 0;
    let mut i: usize = start;
    while i < n
        invariant
            n == s@.len(),
            start <= i <= n,
            d == s@.subrange(start as int, n as int),
            d == unsigned_digits(s@),
            all_digits(d.take(i - start)),
            value == digits_value(d.take(i - start)),
        decreases n - i,
    {
        let c = s.get_char(i);
        proof {
            assert(d.take(i - start + 1).drop_last() =~= d.take(i - start));
            assert(d[i - start] == c);
        }
        if c < '0' || c > '9' {
            assert(!all_digits(d)) by {
                assert(d[i - start] == c);
            }
            assert(parsed_u64(s@) is None);
            return None;
        }
        let digit = (c as u32 - '0' as u32) as u64;
        let ghost next = d.take(i - start + 1);
        assert(digits_value(next) == digits_value(d.take(i - start)) * 10 + digit);
        if value > (u64::MAX - digit) / 10 {
            proof {
                assert(value * 10 + digit > u64::MAX) by (nonlinear_arith)
                    requires
                        value > (u64::MAX - digit) / 10,
                        digit <= 9,
                ;
                assert(all_digits(next)) by {
                    assert forall|j: int| 0 <= j < next.len() implies '0' <= #[trigger] next[j] <= '9' by {
                        if j < i - start {
                            assert(next[j] == d.take(i - start)[j]);
                        }
                    }
                }
                lemma_digits_value_prefix(d, i - start + 1);
            }
            assert(parsed_u64(s@) is None);
            return None;
        }
        value = value * 10 + digit;
        i = i + 1;
    }
    assert(d.take(n - start) =~= d);
    Some(value)
}

/// A longer digit string is worth at least as much as its prefix.
proof fn lemma_digits_value_prefix(d: Seq<char>, k: int)
    requires
        0 <= k <= d.len(),
        all_digits(d.take(k)),
    ensures
        all_digits(d) ==> digits_value(d) >= digits_value(d.take(k)),
    decreases d.len() - k,
{
    if k < d.len() && all_digits(d) {
        assert(d.take(k + 1).drop_last() =~= d.take(k));
        lemma_digits_value_prefix(d, k + 1);
    } else if k == d.len() {
        assert(d.take(k) =~= d);
    }
}

} // verus!
