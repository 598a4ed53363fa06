//! String algorithms used when rendering arguments: joining, template
//! substitution, decimal rendering and shell quoting.
use vstd::prelude::*;
use vstd::string::*;

verus! {

/// The views of a sequence of strings.
pub open spec fn strings_view(v: Seq<String>) -> Seq<Seq<char>> {
    v.map_values(|s: String| s@)
}

/// `parts` joined with `sep` between each two neighbours.
pub open spec fn join_spec(parts: Seq<Seq<char>>, sep: Seq<char>) -> Seq<char>
    decreases parts.len(),
{
    if parts.len() == 0 {
        seq![]
    } else if parts.len() == 1 {
        parts[0]
    } else {
        join_spec(parts.drop_last(), sep) + sep + parts.last()
    }
}

/// Joins `parts` with `sep` between each two neighbours.
pub fn join(parts: &Vec<String>, sep: &str) -> (r: String)
    ensures
        r@ == join_spec(strings_view(parts@), sep@),
{
    let mut out = String::new();
    let mut i: usize = 0;
    while i < parts.len()
        invariant
            i <= parts.len(),
            out@ == join_spec(strings_view(parts@).take(i as int), sep@),
        decreases parts.len() - i,
    {
        if i > 0 {
            out.append(sep);
        }
        out.append(parts[i].as_str());
        proof {
            assert(strings_view(parts@).take(i + 1).drop_last() =~= strings_view(parts@).take(
                i as int,
            ));
        }
        i += 1;
    }
    proof {
        assert(strings_view(parts@).take(parts.len() as int) =~= strings_view(parts@));
    }
    out
}

/// Whether `t` holds the substitution point `{}` at index `i`.
pub open spec fn placeholder_at(t: Seq<char>, i: int) -> bool {
    0 <= i && i + 1 < t.len() && t[i] == '{' && t[i + 1] == '}'
}

/// The template `t` with its first `{}` replaced by `s`; `t` itself when it
/// has no `{}`.
pub open spec fn apply_format_spec(t: Seq<char>, s: Seq<char>) -> Seq<char>
    decreases t.len(),
{
    if t.len() < 2 {
        t
    } else if t[0] == '{' && t[1] == '}' {
        s + t.skip(2)
    } else {
        seq![t[0]] + apply_format_spec(t.skip(1), s)
    }
}

proof fn lemma_format_at(t: Seq<char>, s: Seq<char>, i: int)
    requires
        placeholder_at(t, i),
        forall|j: int| 0 <= j < i ==> !placeholder_at(t, j),
    ensures
        apply_format_spec(t, s) == t.take(i) + s + t.skip(i + 2),
    decreases i,
{
    if i > 0 {
        assert(!placeholder_at(t, 0));
        let u = t.skip(1);
        assert forall|j: int| 0 <= j < i - 1 implies !placeholder_at(u, j) by {
            assert(!placeholder_at(t, j + 1));
        }
        lemma_format_at(u, s, i - 1);
        assert(t.take(i) =~= seq![t[0]] + u.take(i - 1));
        assert(t.skip(i + 2) =~= u.skip(i + 1));
    }
}

proof fn lemma_format_absent(t: Seq<char>, s: Seq<char>)
    requires
        forall|j: int| !placeholder_at(t, j),
    ensures
        apply_format_spec(t, s) == t,
    decreases t.len(),
{
    if t.len() >= 2 {
        assert(!placeholder_at(t, 0));
        let u = t.skip(1);
        assert forall|j: int| !placeholder_at(u, j) by {
            assert(!placeholder_at(t, j + 1));
        }
        lemma_format_absent(u, s);
        assert(t =~= seq![t[0]] + u);
    }
}

/// Replaces the first `{}` of `template` by `s`.
pub fn apply_format(template: &str, s: &str) -> (r: String)
    ensures
        r@ == apply_format_spec(template@, s@),
{
    let n = template.unicode_len();
    let mut i: usize = 0;
    while i < n
        invariant
            n == template@.len(),
            i <= n,
            forall|j: int| 0 <= j < i ==> !placeholder_at(template@, j),
        decreases n - i,
    {
        if i + 1 < n && template.get_char(i) == '{' && template.get_char(i + 1) == '}' {
            let mut out = String::from_str(template.substring_char(0, i));
            out.append(s);
            out.append(template.substring_char(i + 2, n));
            proof {
                lemma_format_at(template@, s@, i as int);
                assert(template@.take(i as int) =~= template@.subrange(0, i as int));
                assert(template@.skip(i + 2) =~= template@.subrange(i + 2, n as int));
            }
            return out;
        }
        i += 1;
    }
    proof {
        lemma_format_absent(template@, s@);
    }
    String::from_str(template)
}

/// The decimal digit for `d`, where `d < 10`.
pub open spec fn digit_char(d: nat) -> char {
    if d == 0 { '0' }
    else if d == 1 { '1' }
    else if d == 2 { '2' }
    else if d == 3 { '3' }
    else if d == 4 { '4' }
    else if d == 5 { '5' }
    else if d == 6 { '6' }
    else if d == 7 { '7' }
    else if d == 8 { '8' }
    else { '9' }
}

/// The decimal notation of `n`, without leading zeros.
pub open spec fn decimal_spec(n: nat) -> Seq<char>
    decreases n,
{
    if n < 10 {
        seq![digit_char(n)]
    } else {
        decimal_spec(n / 10) + seq![digit_char(n % 10)]
    }
}

/// The decimal notation of `i`, with a leading `-` when it is negative.
pub open spec fn signed_decimal_spec(i: int) -> Seq<char> {
    if i < 0 {
        seq!['-'] + decimal_spec((-i) as nat)
    } else {
        decimal_spec(i as nat)
    }
}

fn digit(d: u64) -> (r: String)
    requires
        d < 10,
    ensures
        r@ == seq![digit_char(d as nat)],
{
    let digits = "0123456789";
    proof {
        reveal_strlit("0123456789");
    }
    let r = String::from_str(digits.substring_char(d as usize, d as usize + 1));
    proof {
        assert(r@ =~= seq![digit_char(d as nat)]);
    }
    r
}

/// The decimal notation of `n`.
pub fn decimal(n: u64) -> (r: String)
    ensures
        r@ == decimal_spec(n as nat),
    decreases n,
{
    if n < 10 {
        digit(n)
    } else {
        let mut r = decimal(n / 10);
        let d = digit(n % 10);
        r.append(d.as_str());
        r
    }
}

/// The decimal notation of `i`, with a leading `-` when it is negative.
pub fn signed_decimal(i: i64) -> (r: String)
    ensures
        r@ == signed_decimal_spec(i as int),
{
    if i < 0 {
        let magnitude: u64 = (0i128 - i as i128) as u64;
        let mut r = String::from_str("-");
        proof {
            reveal_strlit("-");
        }
        let digits = decimal(magnitude);
        r.append(digits.as_str());
        r
    } else {
        decimal(i as u64)
    }
}

/// Characters that a POSIX shell takes literally outside quotes.
pub open spec fn shell_safe_char(c: char) -> bool {
    ('a' <= c && c <= 'z') || ('A' <= c && c <= 'Z') || ('0' <= c && c <= '9') || c == '-'
        || c == '_' || c == '.' || c == '/' || c == '=' || c == ':' || c == ',' || c == '+'
        || c == '@' || c == '%'
}

/// Whether `s` is a non-empty word that a shell passes through unchanged.
pub open spec fn shell_safe(s: Seq<char>) -> bool {
    s.len() > 0 && forall|i: int| 0 <= i < s.len() ==> shell_safe_char(#[trigger] s[i])
}

/// The text that stands for the single quote `'` inside a single-quoted word:
/// close the quotes, an escaped quote, reopen the quotes.
pub open spec fn escaped_quote() -> Seq<char> {
    seq!['\'', '\\', '\'', '\'']
}

/// `s` with each single quote replaced by [`escaped_quote`].
pub open spec fn escape_quotes_spec(s: Seq<char>) -> Seq<char>
    decreases s.len(),
{
    if s.len() == 0 {
        seq![]
    } else {
        escape_quotes_spec(s.drop_last()) + if s.last() == '\'' {
            escaped_quote()
        } else {
            seq![s.last()]
        }
    }
}

/// `s` as one shell word: unchanged when every character is safe, else
/// wrapped in single quotes with its own single quotes escaped.
pub open spec fn shell_quote_spec(s: Seq<char>) -> Seq<char> {
    if shell_safe(s) {
        s
    } else {
        seq!['\''] + escape_quotes_spec(s) + seq!['\'']
    }
}

/// Quotes `s` so that a POSIX shell reads it back as one word equal to `s`.
pub fn shell_quote(s: &str) -> (r: String)
    ensures
        r@ == shell_quote_spec(s@),
{
    let n = s.unicode_len();
    let mut safe = n > 0;
    let mut i: usize = 0;
    while i < n
        invariant
            n == s@.len(),
            i <= n,
            safe <==> (n > 0 && forall|j: int| 0 <= j < i ==> shell_safe_char(#[trigger] s@[j])),
        decreases n - i,
    {
        let c = s.get_char(i);
        let ok = ('a' <= c && c <= 'z') || ('A' <= c && c <= 'Z') || ('0' <= c && c <= '9')
            || c == '-' || c == '_' || c == '.' || c == '/' || c == '=' || c == ':' || c == ','
            || c == '+' || c == '@' || c == '%';
        if !ok {
            safe = false;
        }
        i += 1;
    }
    if safe {
        return String::from_str(s);
    }
    let quote = "'";
    let escaped = "'\\''";
    proof {
        reveal_strlit("'");
        reveal_strlit("'\\''");
        assert(escaped@ =~= escaped_quote());
    }
    let mut out = String::from_str(quote);
    let mut k: usize = 0;
    while k < n
        invariant
            n == s@.len(),
            k <= n,
            quote@ == seq!['\''],
            escaped@ == escaped_quote(),
            out@ == seq!['\''] + escape_quotes_spec(s@.take(k as int)),
        decreases n - k,
    {
        let c = s.get_char(k);
        if c == '\'' {
            out.append(escaped);
        } else {
            out.append(s.substring_char(k, k + 1));
        }
        proof {
            assert(s@.take(k + 1).drop_last() =~= s@.take(k as int));
            assert(s@.subrange(k as int, k + 1) =~= seq![c]);
        }
        k += 1;
    }
    out.append(quote);
    proof {
        assert(s@.take(n as int) =~= s@);
    }
    out
}

/// `x` with `s` in front, when there is one.
pub open spec fn prefixed(s: Seq<char>, x: Option<Seq<char>>) -> Option<Seq<char>> {
    match x {
        Some(t) => Some(s + t),
        None => None,
    }
}

/// The text a POSIX shell reads from `w` as one word, where `w` is made of
/// characters that need no escaping, backslash escapes and single-quoted
/// sections; `None` when `w` holds anything else (an unmatched quote, a
/// character the shell would treat specially).
pub open spec fn shell_read_spec(w: Seq<char>) -> Option<Seq<char>>
    decreases w.len(), 0nat,
{
    if w.len() == 0 {
        Some(seq![])
    } else if w[0] == '\'' {
        shell_read_quoted_spec(w.skip(1))
    } else if w[0] == '\\' {
        if w.len() >= 2 {
            prefixed(seq![w[1]], shell_read_spec(w.skip(2)))
        } else {
            None
        }
    } else if shell_safe_char(w[0]) {
        prefixed(seq![w[0]], shell_read_spec(w.skip(1)))
    } else {
        None
    }
}

/// What the shell reads from `w`, which follows an opening single quote:
/// every character up to the closing quote, then the rest of the word.
pub open spec fn shell_read_quoted_spec(w: Seq<char>) -> Option<Seq<char>>
    decreases w.len(), 1nat,
{
    if w.len() == 0 {
        None
    } else if w[0] == '\'' {
        shell_read_spec(w.skip(1))
    } else {
        prefixed(seq![w[0]], shell_read_quoted_spec(w.skip(1)))
    }
}

proof fn lemma_escape_quotes_front(c: char, t: Seq<char>)
    ensures
        escape_quotes_spec(seq![c] + t) == (if c == '\'' {
            escaped_quote()
        } else {
            seq![c]
        }) + escape_quotes_spec(t),
    decreases t.len(),
{
    let head = if c == '\'' {
        escaped_quote()
    } else {
        seq![c]
    };
    if t.len() == 0 {
        assert((seq![c] + t).drop_last() =~= seq![]);
        assert(escape_quotes_spec(seq![]) =~= seq![]);
        assert(head + escape_quotes_spec(t) =~= head);
    } else {
        lemma_escape_quotes_front(c, t.drop_last());
        assert((seq![c] + t).drop_last() =~= seq![c] + t.drop_last());
        assert((seq![c] + t).last() == t.last());
    }
}

proof fn lemma_read_escaped(s: Seq<char>, rest: Seq<char>)
    ensures
        shell_read_quoted_spec(escape_quotes_spec(s) + seq!['\''] + rest) == prefixed(
            s,
            shell_read_spec(rest),
        ),
    decreases s.len(),
{
    if s.len() == 0 {
        assert(escape_quotes_spec(s) + seq!['\''] + rest =~= seq!['\''] + rest);
        assert((seq!['\''] + rest).skip(1) =~= rest);
        match shell_read_spec(rest) {
            Some(x) => assert(s + x =~= x),
            None => {},
        }
    } else {
        let c = s[0];
        let t = s.skip(1);
        assert(s =~= seq![c] + t);
        lemma_escape_quotes_front(c, t);
        lemma_read_escaped(t, rest);
        let tail = escape_quotes_spec(t) + seq!['\''] + rest;
        if c == '\'' {
            let w = escaped_quote() + tail;
            assert(escape_quotes_spec(s) + seq!['\''] + rest =~= w);
            let w1 = w.skip(1);
            assert(w1[0] == '\\' && w1[1] == '\'');
            let w3 = w1.skip(2);
            assert(w3[0] == '\'');
            assert(w3.skip(1) =~= tail);
            assert(shell_read_spec(w3) == shell_read_quoted_spec(tail));
            assert(shell_read_spec(w1) == prefixed(seq!['\''], shell_read_spec(w3)));
            assert(shell_read_quoted_spec(w) == shell_read_spec(w1));
            match shell_read_spec(rest) {
                Some(x) => assert(seq![c] + (t + x) =~= s + x),
                None => {},
            }
        } else {
            let w = seq![c] + tail;
            assert(escape_quotes_spec(s) + seq!['\''] + rest =~= w);
            assert(w.skip(1) =~= tail);
            assert(w[0] == c);
            assert(shell_read_quoted_spec(w) == prefixed(seq![c], shell_read_quoted_spec(tail)));
            match shell_read_spec(rest) {
                Some(x) => assert(seq![c] + (t + x) =~= s + x),
                None => {},
            }
        }
    }
}

proof fn lemma_read_safe(s: Seq<char>)
    requires
        forall|i: int| 0 <= i < s.len() ==> shell_safe_char(#[trigger] s[i]),
    ensures
        shell_read_spec(s) == Some(s),
    decreases s.len(),
{
    if s.len() > 0 {
        let t = s.skip(1);
        assert forall|i: int| 0 <= i < t.len() implies shell_safe_char(#[trigger] t[i]) by {
            assert(t[i] == s[i + 1]);
        }
        lemma_read_safe(t);
        assert(shell_safe_char(s[0]));
        assert(seq![s[0]] + t =~= s);
    }
}

/// Shell quoting is faithful: a POSIX shell reads the quoted text back as one
/// word equal to the original text.
pub proof fn lemma_shell_quote_reads_back(s: Seq<char>)
    ensures
        shell_read_spec(shell_quote_spec(s)) == Some(s),
{
    if shell_safe(s) {
        lemma_read_safe(s);
    } else {
        let q = seq!['\''] + escape_quotes_spec(s) + seq!['\''];
        lemma_read_escaped(s, seq![]);
        assert(q.skip(1) =~= escape_quotes_spec(s) + seq!['\''] + seq![]);
        assert(s + seq![] =~= s);
    }
}

} // verus!
