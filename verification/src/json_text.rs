use vstd::prelude::*;

verus! {

/// The character that stands for a hexadecimal digit, lower case.
pub open spec fn hex_digit(n: nat) -> char {
    if n < 10 {
        (48 + n) as char
    } else {
        (87 + n) as char
    }
}

/// How one character of a string is written inside a JSON string literal.
pub open spec fn json_escape_char(c: char) -> Seq<char> {
    if c == '"' {
        seq!['\\', '"']
    } else if c == '\\' {
        seq!['\\', '\\']
    } else if c == '\x08' {
        seq!['\\', 'b']
    } else if c == '\t' {
        seq!['\\', 't']
    } else if c == '\n' {
        seq!['\\', 'n']
    } else if c == '\x0C' {
        seq!['\\', 'f']
    } else if c == '\r' {
        seq!['\\', 'r']
    } else if (c as nat) < 32 {
        seq!['\\', 'u', '0', '0', hex_digit((c as nat) / 16), hex_digit((c as nat) % 16)]
    } else {
        seq![c]
    }
}

/// The escaped body of a JSON string literal.
pub open spec fn json_escape(s: Seq<char>) -> Seq<char>
    decreases s.len(),
{
    if s.len() == 0 {
        Seq::empty()
    } else {
        json_escape(s.drop_last()) + json_escape_char(s.last())
    }
}

/// A string written as a compact JSON string literal, quotes included.
pub open spec fn json_quoted(s: Seq<char>) -> Seq<char> {
    seq!['"'] + json_escape(s) + seq!['"']
}

/// The decimal digit character of `d` (for `d < 10`).
pub open spec fn digit_char(d: nat) -> char {
    (48 + d) as char
}

/// The decimal notation of a natural number, without leading zeros.
pub open spec fn decimal(n: nat) -> Seq<char>
    decreases n,
{
    if n < 10 {
        seq![digit_char(n)]
    } else {
        decimal(n / 10) + seq![digit_char(n % 10)]
    }
}

/// One member of a compact JSON object: its key, a colon, and the text of
/// its value.
pub open spec fn member_text(member: (Seq<char>, Seq<char>)) -> Seq<char> {
    json_quoted(member.0) + seq![':'] + member.1
}

/// The members of a compact JSON object, separated by commas.
pub open spec fn members_text(members: Seq<(Seq<char>, Seq<char>)>) -> Seq<char>
    decreases members.len(),
{
    if members.len() == 0 {
        Seq::empty()
    } else if members.len() == 1 {
        member_text(members[0])
    } else {
        members_text(members.drop_last()) + seq![','] + member_text(members.last())
    }
}

/// The compact JSON text of an object, given its keys and the texts of their
/// values, in order.
pub open spec fn object_text(members: Seq<(Seq<char>, Seq<char>)>) -> Seq<char> {
    seq!['{'] + members_text(members) + seq!['}']
}

/// A character that JSON writes as it is inside a string.
pub open spec fn plain_char(c: char) -> bool {
    &&& c as nat >= 32
    &&& c != '"'
    &&& c != '\\'
}

/// A string of plain characters is written unchanged.
pub proof fn lemma_escape_plain(s: Seq<char>)
    requires
        forall|i: int| 0 <= i < s.len() ==> plain_char(#[trigger] s[i]),
    ensures
        json_escape(s) == s,
    decreases s.len(),
{
    if s.len() > 0 {
        let p = s.drop_last();
        assert forall|i: int| 0 <= i < p.len() implies plain_char(#[trigger] p[i]) by {
            assert(p[i] == s[i]);
        }
        lemma_escape_plain(p);
        assert(plain_char(s[s.len() - 1]));
        assert(p + seq![s.last()] =~= s);
    }
}

/// Writes a string as a JSON string value.
///
/// Calls `serde_json::Value`'s `Display` (through `to_string`) on a
/// `Value::String`. Trusted claim: the text is the quoted string with
/// serde_json's escapes (`\"`, `\\`, `\b`, `\t`, `\n`, `\f`, `\r`, and
/// `\u00xx` with lower-case hex for the other characters below U+0020);
/// every other character, non-ASCII ones included, is written as it is.
#[verifier::external_body]
pub(crate) fn json_string_text(s: &str) -> (r: String)
    ensures
        r@ == json_quoted(s@),
{
    serde_json::Value::String(s.to_owned()).to_string()
}

/// Writes an unsigned integer as a JSON number value.
///
/// Calls `serde_json::Value`'s `Display` (through `to_string`) on the value
/// that `serde_json::Value::from` makes of a `u32`. Trusted claim: the text
/// is the number's plain decimal notation.
#[verifier::external_body]
pub(crate) fn json_u32_text(n: u32) -> (r: String)
    ensures
        r@ == decimal(n as nat),
{
    serde_json::Value::from(n).to_string()
}

/// Escaping a concatenation escapes each part.
pub proof fn lemma_escape_append(a: Seq<char>, b: Seq<char>)
    ensures
        json_escape(a + b) == json_escape(a) + json_escape(b),
    decreases b.len(),
{
    if b.len() == 0 {
        assert(a + b =~= a);
        assert(json_escape(a) + json_escape(b) =~= json_escape(a));
    } else {
        let b2 = b.drop_last();
        lemma_escape_append(a, b2);
        assert((a + b).drop_last() =~= a + b2);
        assert((a + b).last() == b.last());
        assert(json_escape(a) + json_escape(b2) + json_escape_char(b.last()) =~= json_escape(a) + (
        json_escape(b2) + json_escape_char(b.last())));
    }
}

/// Escaping reads a string from its first character on.
pub proof fn lemma_escape_first(s: Seq<char>)
    requires
        s.len() > 0,
    ensures
        json_escape(s) == json_escape_char(s[0]) + json_escape(s.drop_first()),
{
    let head = seq![s[0]];
    lemma_escape_append(head, s.drop_first());
    assert(head + s.drop_first() =~= s);
    assert(head.drop_last() =~= Seq::<char>::empty());
    assert(json_escape(Seq::<char>::empty()) + json_escape_char(s[0]) =~= json_escape_char(s[0]));
}

/// The hexadecimal digit characters are distinct.
proof fn lemma_hex_digit_injective(a: nat, b: nat)
    requires
        a < 16,
        b < 16,
        hex_digit(a) == hex_digit(b),
    ensures
        a == b,
{
    assert(hex_digit(a) as nat == if a < 10 { 48 + a } else { 87 + a });
    assert(hex_digit(b) as nat == if b < 10 { 48 + b } else { 87 + b });
}

/// No character's escape is a proper beginning of another's, and no escape
/// begins with a quote: the first characters of an escaped text determine
/// its first character, and a closing quote cannot be mistaken for one.
proof fn lemma_escape_char_prefix_free(c1: char, c2: char, x: Seq<char>, y: Seq<char>)
    requires
        json_escape_char(c1) + x == json_escape_char(c2) + y,
    ensures
        c1 == c2,
        x == y,
{
    let e1 = json_escape_char(c1);
    let e2 = json_escape_char(c2);
    let z = e1 + x;
    assert(z[0] == e1[0] && z[0] == e2[0]);
    if e1.len() == 1 {
        assert(e1[0] == c1);
        assert(e2.len() == 1);
    } else {
        assert(e1[0] == '\\');
        assert(e2.len() > 1);
        assert(z[1] == e1[1] && z[1] == e2[1]);
        if e1[1] == 'u' {
            assert(e2[1] == 'u');
            assert(e1.len() == 6 && e2.len() == 6);
            assert(z[4] == e1[4] && z[4] == e2[4]);
            assert(z[5] == e1[5] && z[5] == e2[5]);
            lemma_hex_digit_injective((c1 as nat) / 16, (c2 as nat) / 16);
            lemma_hex_digit_injective((c1 as nat) % 16, (c2 as nat) % 16);
            assert(c1 as nat == c2 as nat);
        }
    }
    assert(e1 == e2);
    assert(x =~= z.subrange(e1.len() as int, z.len() as int));
    assert(y =~= z.subrange(e2.len() as int, z.len() as int));
}

/// No escape begins with a quote.
proof fn lemma_escape_char_not_quote(c: char)
    ensures
        json_escape_char(c).len() > 0,
        json_escape_char(c)[0] != '"',
{
}

/// A quoted string ends where its closing quote stands: where two escaped
/// texts, each followed by a quote, begin the same text, the texts and what
/// follows their quotes are the same.
pub proof fn lemma_escape_self_delimiting(s1: Seq<char>, s2: Seq<char>, r1: Seq<char>, r2: Seq<char>)
    requires
        json_escape(s1) + seq!['"'] + r1 == json_escape(s2) + seq!['"'] + r2,
    ensures
        s1 == s2,
        r1 == r2,
    decreases s1.len() + s2.len(),
{
    let z = json_escape(s1) + seq!['"'] + r1;
    if s1.len() == 0 && s2.len() == 0 {
        assert(r1 =~= z.subrange(1, z.len() as int));
        assert(r2 =~= z.subrange(1, z.len() as int));
    } else if s1.len() == 0 {
        lemma_escape_first(s2);
        lemma_escape_char_not_quote(s2[0]);
        assert(z[0] == '"');
        assert(z[0] == json_escape_char(s2[0])[0]);
    } else if s2.len() == 0 {
        lemma_escape_first(s1);
        lemma_escape_char_not_quote(s1[0]);
        assert(z[0] == '"');
        assert(z[0] == json_escape_char(s1[0])[0]);
    } else {
        lemma_escape_first(s1);
        lemma_escape_first(s2);
        let t1 = json_escape(s1.drop_first()) + seq!['"'] + r1;
        let t2 = json_escape(s2.drop_first()) + seq!['"'] + r2;
        assert(json_escape(s1) + seq!['"'] + r1 =~= json_escape_char(s1[0]) + t1);
        assert(json_escape(s2) + seq!['"'] + r2 =~= json_escape_char(s2[0]) + t2);
        lemma_escape_char_prefix_free(s1[0], s2[0], t1, t2);
        lemma_escape_self_delimiting(s1.drop_first(), s2.drop_first(), r1, r2);
        assert(s1 =~= seq![s1[0]] + s1.drop_first());
        assert(s2 =~= seq![s2[0]] + s2.drop_first());
    }
}

/// Decimal notation is never empty.
proof fn lemma_decimal_nonempty(n: nat)
    ensures
        decimal(n).len() > 0,
    decreases n,
{
}

/// Distinct numbers have distinct decimal notations.
pub proof fn lemma_decimal_injective(a: nat, b: nat)
    requires
        decimal(a) == decimal(b),
    ensures
        a == b,
    decreases a + b,
{
    let d = decimal(a);
    if a < 10 && b < 10 {
        assert(digit_char(a) == d[0] && digit_char(b) == d[0]);
        assert(digit_char(a) as nat == 48 + a);
        assert(digit_char(b) as nat == 48 + b);
    } else if a < 10 {
        lemma_decimal_nonempty(b / 10);
        assert(decimal(b).len() > 1);
    } else if b < 10 {
        lemma_decimal_nonempty(a / 10);
        assert(decimal(a).len() > 1);
    } else {
        let last = (d.len() - 1) as int;
        assert(d[last] == digit_char(a % 10));
        assert(decimal(b)[last] == digit_char(b % 10));
        assert(digit_char(a % 10) as nat == 48 + a % 10);
        assert(digit_char(b % 10) as nat == 48 + b % 10);
        assert(decimal(a / 10) =~= d.drop_last());
        assert(decimal(b / 10) =~= decimal(b).drop_last());
        lemma_decimal_injective(a / 10, b / 10);
    }
}

} // verus!
