//! The single command-line text that a process is created with, built from
//! its arguments.

use vstd::prelude::*;
use vstd::string::StrSliceExecFns;

verus! {

/// A backslash or a double quote is preceded by a backslash.
pub open spec fn escape_char(c: char) -> Seq<char> {
    if c == '\\' {
        seq!['\\', '\\']
    } else if c == '"' {
        seq!['\\', '"']
    } else {
        seq![c]
    }
}

pub open spec fn escape(a: Seq<char>) -> Seq<char>
    decreases a.len(),
{
    if a.len() == 0 {
        seq![]
    } else {
        escape(a.drop_last()) + escape_char(a.last())
    }
}

/// An argument with a space is escaped and put in double quotes; any other
/// is only escaped.
pub open spec fn quote_arg(a: Seq<char>) -> Seq<char> {
    if a.contains(' ') {
        seq!['"'] + escape(a) + seq!['"']
    } else {
        escape(a)
    }
}

/// The arguments quoted, in order, with a space before each one that
/// follows non-empty text.
pub open spec fn join_args(args: Seq<Seq<char>>) -> Seq<char>
    decreases args.len(),
{
    if args.len() == 0 {
        seq![]
    } else {
        let prev = join_args(args.drop_last());
        let sep = if prev.len() > 0 { seq![' '] } else { seq![] };
        prev + sep + quote_arg(args.last())
    }
}

/// Relies on `String`'s `FromIterator<char>`: the characters, in order.
#[verifier::external_body]
pub(crate) fn string_of(chars: &Vec<char>) -> (r: String)
    ensures
        r@ == chars@,
{
    chars.iter().collect()
}

fn has_space(a: &str) -> (r: bool)
    ensures
        r == a@.contains(' '),
{
    let n = a.unicode_len();
    let mut i: usize = 0;
    while i < n
        invariant
            n == a@.len(),
            0 <= i <= n,
            forall|k: int| 0 <= k < i ==> a@[k] != ' ',
        decreases n - i,
    {
        if a.get_char(i) == ' ' {
            assert(a@[i as int] == ' ');
            return true;
        }
        i = i + 1;
    }
    false
}

fn push_quoted(out: &mut Vec<char>, a: &str)
    ensures
        final(out)@ == old(out)@ + quote_arg(a@),
{
    let quoted = has_space(a);
    let ghost start = out@;
    if quoted {
        out.push('"');
    }
    let ghost open = out@;
    let n = a.unicode_len();
    let mut i: usize = 0;
    while i < n
        invariant
            n == a@.len(),
            0 <= i <= n,
            out@ == open + escape(a@.subrange(0, i as int)),
        decreases n - i,
    {
        let c = a.get_char(i);
        assert(a@.subrange(0, i + 1).drop_last() =~= a@.subrange(0, i as int));
        if c == '\\' {
            out.push('\\');
            out.push('\\');
        } else if c == '"' {
            out.push('\\');
            out.push('"');
        } else {
            out.push(c);
        }
        assert(out@ =~= open + escape(a@.subrange(0, i + 1)));
        i = i + 1;
    }
    assert(a@.subrange(0, n as int) =~= a@);
    if quoted {
        out.push('"');
        assert(out@ =~= start + quote_arg(a@));
    } else {
        assert(out@ =~= start + quote_arg(a@));
    }
}

/// The command-line text of the arguments.
pub fn command_line_text(argv: &Vec<String>) -> (r: String)
    ensures
        r@ == join_args(argv@.map_values(|s: String| s@)),
{
    let ghost args = argv@.map_values(|s: String| s@);
    let mut out: Vec<char> = Vec::new();
    let mut i: usize = 0;
    while i < argv.len()
        invariant
            0 <= i <= argv@.len(),
            args == argv@.map_values(|s: String| s@),
            out@ == join_args(args.subrange(0, i as int)),
        decreases argv@.len() - i,
    {
        assert(args.subrange(0, i + 1).drop_last() =~= args.subrange(0, i as int));
        if out.len() > 0 {
            out.push(' ');
        }
        push_quoted(&mut out, argv[i].as_str());
        assert(out@ =~= join_args(args.subrange(0, i + 1)));
        i = i + 1;
    }
    assert(args.subrange(0, argv@.len() as int) =~= args);
    string_of(&out)
}

} // verus!
