//! Text the tracker produces: decimal numbers, filesystem-safe names and
//! the shell command lines handed to the host.
use vstd::prelude::*;
use vstd::string::*;

verus! {

/// The ASCII digit for `d < 10`.
pub open spec fn digit_char(d: nat) -> char {
    ((d + 48) as u8) as char
}

/// The decimal representation of `n`, without leading zeros.
pub open spec fn decimal(n: nat) -> Seq<char>
    decreases n,
{
    if n < 10 {
        seq![digit_char(n)]
    } else {
        decimal(n / 10).push(digit_char(n % 10))
    }
}

/// Relies on `String::push`: appends one character at the end.
#[verifier::external_body]
pub(crate) fn push_char(s: &mut String, c: char)
    ensures
        final(s)@ == old(s)@.push(c),
{
    s.push(c);
}

/// Appends the decimal representation of `n` to `s`.
pub fn push_decimal(s: &mut String, n: u64)
    ensures
        final(s)@ == old(s)@ + decimal(n as nat),
    decreases n,
{
    if n >= 10 {
        push_decimal(s, n / 10);
    }
    let d: u8 = (n % 10) as u8;
    push_char(s, (d + 48) as char);
    proof {
        if n >= 10 {
            assert(decimal(n as nat) == decimal((n / 10) as nat).push(digit_char((n % 10) as nat)));
        }
        assert(s@ =~= old(s)@ + decimal(n as nat));
    }
}

/// Whether `char::is_alphanumeric` holds of `c`.
pub uninterp spec fn alphanumeric(c: char) -> bool;

/// Relies on `char::is_alphanumeric`: true for the Unicode Alphabetic and
/// Numeric characters, among them the ASCII letters and digits.
#[verifier::external_body]
fn is_alphanumeric(c: char) -> (r: bool)
    ensures
        r == alphanumeric(c),
        ('a' <= c <= 'z' || 'A' <= c <= 'Z' || '0' <= c <= '9') ==> r,
{
    c.is_alphanumeric()
}

/// The character that stands for `c` in a filesystem-safe name.
pub open spec fn safe_char(c: char) -> char {
    if c == ' ' || c == '/' {
        '-'
    } else if alphanumeric(c) || c == '-' || c == '_' {
        c
    } else {
        '_'
    }
}

/// A pane title made safe for use as one path component.
pub open spec fn sanitized(title: Seq<char>) -> Seq<char> {
    title.map_values(|c: char| safe_char(c))
}

/// Maps each character of `title` to itself when it is alphanumeric, `-` or
/// `_`, to `-` when it is a space or `/`, and to `_` otherwise.
pub fn sanitize_name(title: &str) -> (r: String)
    ensures
        r@ == sanitized(title@),
{
    let mut out = String::new();
    let n = title.unicode_len();
    let mut i: usize = 0;
    while i < n
        invariant
            n == title@.len(),
            i <= n,
            out@.len() == i,
            forall|j: int| 0 <= j < i ==> out@[j] == safe_char(title@[j]),
        decreases n - i,
    {
        let c = title.get_char(i);
        let m = if c == ' ' || c == '/' {
            '-'
        } else if is_alphanumeric(c) || c == '-' || c == '_' {
            c
        } else {
            '_'
        };
        push_char(&mut out, m);
        i += 1;
    }
    assert(out@ =~= sanitized(title@));
    out
}

/// The prefix of the names the host gives panes that nobody named.
pub open spec fn default_prefix() -> Seq<char> {
    seq!['P', 'a', 'n', 'e', '-']
}

/// Whether a sanitized name looks like one the host made up.
pub open spec fn is_default_name(name: Seq<char>) -> bool {
    name.len() >= 5 && name.subrange(0, 5) == default_prefix()
}

/// Whether `name` is worth a symlink: not empty and not a default name.
pub open spec fn is_link_name(name: Seq<char>) -> bool {
    name.len() > 0 && !is_default_name(name)
}

/// Tests `is_link_name`.
pub fn link_worthy(name: &str) -> (r: bool)
    ensures
        r == is_link_name(name@),
{
    let n = name.unicode_len();
    if n == 0 {
        return false;
    }
    if n < 5 {
        return true;
    }
    let a = name.get_char(0);
    let b = name.get_char(1);
    let c = name.get_char(2);
    let d = name.get_char(3);
    let e = name.get_char(4);
    let is_default = a == 'P' && b == 'a' && c == 'n' && d == 'e' && e == '-';
    proof {
        if is_default {
            assert(name@.subrange(0, 5) =~= default_prefix());
        } else {
            assert(name@.subrange(0, 5)[0] == a);
            assert(name@.subrange(0, 5)[1] == b);
            assert(name@.subrange(0, 5)[2] == c);
            assert(name@.subrange(0, 5)[3] == d);
            assert(name@.subrange(0, 5)[4] == e);
        }
    }
    !is_default
}

/// `'` written inside a single-quoted shell word: close, quote, reopen.
pub open spec fn quoted_char(c: char) -> Seq<char> {
    if c == '\'' {
        seq!['\'', '"', '\'', '"', '\'']
    } else {
        seq![c]
    }
}

/// `s` with each `'` escaped for a single-quoted shell word.
pub open spec fn shell_escaped(s: Seq<char>) -> Seq<char>
    decreases s.len(),
{
    if s.len() == 0 {
        Seq::empty()
    } else {
        shell_escaped(s.drop_last()) + quoted_char(s.last())
    }
}

/// Appends `text` to `out` so that it can stand between single quotes.
pub fn push_shell_escaped(out: &mut String, text: &str)
    ensures
        final(out)@ == old(out)@ + shell_escaped(text@),
{
    let n = text.unicode_len();
    let mut i: usize = 0;
    while i < n
        invariant
            n == text@.len(),
            i <= n,
            out@ == old(out)@ + shell_escaped(text@.subrange(0, i as int)),
        decreases n - i,
    {
        let c = text.get_char(i);
        if c == '\'' {
            out.append("'\"'\"'");
            proof {
                reveal_strlit("'\"'\"'");
            }
        } else {
            push_char(out, c);
        }
        proof {
            let p = text@.subrange(0, i + 1);
            assert(p.drop_last() =~= text@.subrange(0, i as int));
            assert(p.last() == c);
            assert(out@ =~= old(out)@ + shell_escaped(p));
        }
        i += 1;
    }
    assert(text@.subrange(0, n as int) =~= text@);
}

/// Where the content of pane `index` is dumped.
pub open spec fn dump_path(index: nat) -> Seq<char> {
    "/tmp/zj-pane-"@ + decimal(index) + ".txt"@
}

/// Where the symlink for a pane named `name` is made.
pub open spec fn link_path(name: Seq<char>) -> Seq<char> {
    "/tmp/zj-"@ + name + ".txt"@
}

/// What silences a command's failure.
pub open spec fn quiet_tail() -> Seq<char> {
    " 2>/dev/null || true"@
}

/// The shell line that dumps the content of pane `index`.
pub open spec fn dump_command_text(index: nat) -> Seq<char> {
    "zellij action dump-pane "@ + decimal(index) + " > "@ + dump_path(index) + quiet_tail()
}

/// The shell line that points the symlink for `name` at the dump of pane `index`.
pub open spec fn link_command_text(index: nat, name: Seq<char>) -> Seq<char> {
    "ln -sf "@ + dump_path(index) + " "@ + link_path(name) + quiet_tail()
}

/// The shell line that writes `contents` to the file at `path`.
pub open spec fn write_command_text(contents: Seq<char>, path: Seq<char>) -> Seq<char> {
    "echo '"@ + shell_escaped(contents) + "' > "@ + path + quiet_tail()
}

/// Builds `dump_command_text(index)`.
pub fn dump_command(index: u32) -> (r: String)
    ensures
        r@ == dump_command_text(index as nat),
{
    let mut s = String::from_str("zellij action dump-pane ");
    push_decimal(&mut s, index as u64);
    s.append(" > ");
    s.append("/tmp/zj-pane-");
    push_decimal(&mut s, index as u64);
    s.append(".txt");
    s.append(" 2>/dev/null || true");
    assert(s@ =~= dump_command_text(index as nat));
    s
}

/// Builds `link_command_text(index, name)`.
pub fn link_command(index: u32, name: &str) -> (r: String)
    ensures
        r@ == link_command_text(index as nat, name@),
{
    let mut s = String::from_str("ln -sf ");
    s.append("/tmp/zj-pane-");
    push_decimal(&mut s, index as u64);
    s.append(".txt");
    s.append(" ");
    s.append("/tmp/zj-");
    s.append(name);
    s.append(".txt");
    s.append(" 2>/dev/null || true");
    assert(s@ =~= link_command_text(index as nat, name@));
    s
}

/// Builds `write_command_text(contents, path)`.
pub fn write_command(contents: &str, path: &str) -> (r: String)
    ensures
        r@ == write_command_text(contents@, path@),
{
    let mut s = String::from_str("echo '");
    push_shell_escaped(&mut s, contents);
    s.append("' > ");
    s.append(path);
    s.append(" 2>/dev/null || true");
    assert(s@ =~= write_command_text(contents@, path@));
    s
}

} // verus!
