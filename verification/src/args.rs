//! Reading the command line: flag clusters and operands.
//!
//! A token that begins with `-` is a cluster of flag letters; every other
//! token is an operand. The letters are read in order, and the first one that
//! is none of `f`, `i`, `v` ends the reading.

use crate::options::Options;
use vstd::prelude::*;
use vstd::std_specs::iter::IteratorSpec;

verus! {

/// Why a command line was turned down.
#[derive(Clone, Copy, Debug, PartialEq, Eq, Structural)]
pub enum ParseError {
    /// Nothing at all was given.
    NoArguments,
    /// A flag cluster holds this letter, which is no flag.
    InvalidOption(char),
    /// Flags were given, but no file.
    MissingOperand,
}

/// What a command line asks for.
#[derive(Debug, PartialEq, Eq)]
pub struct Invocation {
    pub options: Options,
    pub operands: Vec<String>,
}

/// A token that begins with `-` holds flags; the lone `-` holds none.
pub open spec fn is_flag_token(token: Seq<char>) -> bool {
    token.len() > 0 && token[0] == '-'
}

pub open spec fn is_flag_letter(c: char) -> bool {
    c == 'f' || c == 'i' || c == 'v'
}

/// The test for a letter that is no flag.
pub open spec fn is_unknown() -> spec_fn(char) -> bool {
    |c: char| !is_flag_letter(c)
}

/// The test for a token that names a file.
pub open spec fn names_file() -> spec_fn(Seq<char>) -> bool {
    |token: Seq<char>| !is_flag_token(token)
}

/// The letters a token contributes: all after the dash, or none.
pub open spec fn letters_of(token: Seq<char>) -> Seq<char> {
    if is_flag_token(token) {
        token.skip(1)
    } else {
        Seq::empty()
    }
}

/// Every letter of every flag token, in reading order.
pub open spec fn flag_letters(tokens: Seq<Seq<char>>) -> Seq<char>
    decreases tokens.len(),
{
    if tokens.len() == 0 {
        Seq::empty()
    } else {
        flag_letters(tokens.drop_last()) + letters_of(tokens.last())
    }
}

/// The tokens that are not flag tokens, in the order given.
pub open spec fn operands_of(tokens: Seq<Seq<char>>) -> Seq<Seq<char>> {
    tokens.filter(names_file())
}

/// The first of `letters` that is no flag letter.
pub open spec fn first_unknown(letters: Seq<char>) -> Option<char> {
    let unknown = letters.filter(is_unknown());
    if unknown.len() > 0 {
        Some(unknown[0])
    } else {
        None
    }
}

/// The error a command line ends in, if it does.
pub open spec fn parse_error(tokens: Seq<Seq<char>>) -> Option<ParseError> {
    if tokens.len() == 0 {
        Some(ParseError::NoArguments)
    } else if let Some(c) = first_unknown(flag_letters(tokens)) {
        Some(ParseError::InvalidOption(c))
    } else if operands_of(tokens).len() == 0 {
        Some(ParseError::MissingOperand)
    } else {
        None
    }
}

/// The strings of a vector as sequences of characters.
pub open spec fn texts(strings: Seq<String>) -> Seq<Seq<char>> {
    strings.map_values(|s: String| s@)
}

/// The flag letters met so far, each as a switch.
#[derive(Clone, Copy)]
struct Seen {
    force: bool,
    interactive: bool,
    verbose: bool,
}

impl Seen {
    /// The switches stand for exactly the flag letters among `letters`.
    spec fn records(self, letters: Seq<char>) -> bool {
        &&& self.force == letters.contains('f')
        &&& self.interactive == letters.contains('i')
        &&& self.verbose == letters.contains('v')
    }

    /// The switches once the letter `c` has been read too.
    spec fn with(self, c: char) -> Seen {
        Seen {
            force: self.force || c == 'f',
            interactive: self.interactive || c == 'i',
            verbose: self.verbose || c == 'v',
        }
    }
}

proof fn lemma_contains_concat(a: Seq<char>, b: Seq<char>, c: char)
    ensures
        (a + b).contains(c) == (a.contains(c) || b.contains(c)),
{
    if a.contains(c) {
        let i = choose|i: int| 0 <= i < a.len() && a[i] == c;
        assert((a + b)[i] == c);
    }
    if b.contains(c) {
        let i = choose|i: int| 0 <= i < b.len() && b[i] == c;
        assert((a + b)[a.len() + i] == c);
    }
    if (a + b).contains(c) {
        let i = choose|i: int| 0 <= i < (a + b).len() && (a + b)[i] == c;
        if i < a.len() {
            assert(a[i] == c);
        } else {
            assert(b[i - a.len()] == c);
        }
    }
}

proof fn lemma_first_unknown_single(c: char)
    ensures
        first_unknown(seq![c]) == if is_flag_letter(c) {
            None
        } else {
            Some(c)
        },
{
    reveal_with_fuel(Seq::filter, 2);
    assert(seq![c].drop_last() =~= Seq::<char>::empty());
}

proof fn lemma_first_unknown_concat(a: Seq<char>, b: Seq<char>)
    ensures
        first_unknown(a + b) == if first_unknown(a) is Some {
            first_unknown(a)
        } else {
            first_unknown(b)
        },
{
    Seq::filter_distributes_over_add(a, b, is_unknown());
}

proof fn lemma_flag_letters_concat(a: Seq<Seq<char>>, b: Seq<Seq<char>>)
    ensures
        flag_letters(a + b) == flag_letters(a) + flag_letters(b),
    decreases b.len(),
{
    if b.len() == 0 {
        assert(a + b =~= a);
        assert(flag_letters(a) + flag_letters(b) =~= flag_letters(a));
    } else {
        assert((a + b).drop_last() =~= a + b.drop_last());
        lemma_flag_letters_concat(a, b.drop_last());
        assert(flag_letters(a + b) =~= flag_letters(a) + flag_letters(b));
    }
}

/// One more token: its letters join the letters, or it joins the operands.
proof fn lemma_next_token(tokens: Seq<Seq<char>>, i: int)
    requires
        0 <= i < tokens.len(),
    ensures
        flag_letters(tokens.take(i + 1)) == flag_letters(tokens.take(i)) + letters_of(tokens[i]),
        operands_of(tokens.take(i + 1)) == if is_flag_token(tokens[i]) {
            operands_of(tokens.take(i))
        } else {
            operands_of(tokens.take(i)).push(tokens[i])
        },
{
    reveal(Seq::filter);
    assert(tokens.take(i + 1).drop_last() =~= tokens.take(i));
}

/// With no unknown letter so far, the next letter decides.
proof fn lemma_first_unknown_push(sofar: Seq<char>, c: char)
    requires
        first_unknown(sofar) is None,
    ensures
        first_unknown(sofar.push(c)) == if is_flag_letter(c) {
            None
        } else {
            Some(c)
        },
{
    assert(sofar.push(c) =~= sofar + seq![c]);
    lemma_first_unknown_single(c);
    lemma_first_unknown_concat(sofar, seq![c]);
}

/// What comes after the first unknown letter does not matter.
proof fn lemma_first_unknown_found(letters: Seq<char>, k: int)
    requires
        0 <= k < letters.len(),
        first_unknown(letters.take(k)) is None,
        !is_flag_letter(letters[k]),
    ensures
        first_unknown(letters) == Some(letters[k]),
{
    let upto = letters.take(k).push(letters[k]);
    lemma_first_unknown_push(letters.take(k), letters[k]);
    assert(letters =~= upto + letters.skip(k + 1));
    lemma_first_unknown_concat(upto, letters.skip(k + 1));
}

proof fn lemma_records_push(seen: Seen, sofar: Seq<char>, c: char)
    requires
        seen.records(sofar),
    ensures
        seen.with(c).records(sofar.push(c)),
{
    assert(sofar.push(c) =~= sofar + seq![c]);
    assert(seq![c][0] == c);
    lemma_contains_concat(sofar, seq![c], 'f');
    lemma_contains_concat(sofar, seq![c], 'i');
    lemma_contains_concat(sofar, seq![c], 'v');
}

/// Reads the letters of one flag cluster into `seen`, up to the first
/// letter that is no flag. `before` holds the letters read earlier.
fn read_cluster(token: &str, seen: Seen, Ghost(before): Ghost<Seq<char>>) -> (r: Result<
    Seen,
    char,
>)
    requires
        is_flag_token(token@),
        seen.records(before),
    ensures
        match r {
            Ok(now) => {
                &&& first_unknown(letters_of(token@)) is None
                &&& now.records(before + letters_of(token@))
            },
            Err(c) => first_unknown(letters_of(token@)) == Some(c),
        },
{
    let ghost letters = letters_of(token@);
    let mut now = seen;
    let mut rest = token.chars();
    let dash = rest.next();
    let ghost read: int = 0;
    proof {
        assert(rest.remaining() =~= letters.skip(0));
        assert(letters.take(0) =~= Seq::<char>::empty());
        assert(first_unknown(Seq::<char>::empty()) is None) by {
            reveal(Seq::filter);
        }
        assert(before + letters.take(0) =~= before);
    }
    loop
        invariant
            letters == letters_of(token@),
            0 <= read <= letters.len(),
            rest.remaining() == letters.skip(read),
            first_unknown(letters.take(read)) is None,
            now.records(before + letters.take(read)),
        ensures
            read == letters.len(),
        decreases letters.len() - read,
    {
        let ghost earlier = now;
        match rest.next() {
            None => {
                break ;
            },
            Some(c) => {
                proof {
                    assert(c == letters[read]);
                    assert(letters.skip(read).drop_first() =~= letters.skip(read + 1));
                    assert(letters.take(read + 1) =~= letters.take(read).push(c));
                    lemma_first_unknown_push(letters.take(read), c);
                }
                if c == 'f' {
                    now.force = true;
                } else if c == 'i' {
                    now.interactive = true;
                } else if c == 'v' {
                    now.verbose = true;
                } else {
                    proof {
                        lemma_first_unknown_found(letters, read);
                    }
                    return Err(c);
                }
                proof {
                    lemma_records_push(earlier, before + letters.take(read), c);
                    assert(now == earlier.with(c));
                    assert(before + letters.take(read + 1) =~= (before + letters.take(read)).push(
                        c,
                    ));
                    read = read + 1;
                }
            },
        }
    }
    proof {
        assert(letters.take(read) =~= letters);
    }
    Ok(now)
}

/// Whether a token is a flag cluster.
pub fn is_flag(token: &str) -> (b: bool)
    ensures
        b == is_flag_token(token@),
{
    let mut letters = token.chars();
    match letters.next() {
        Some(c) => c == '-',
        None => false,
    }
}

/// Reads a command line, given without the program's name.
///
/// Flag clusters and operands may come in any order. The letters are read
/// from left to right and the first unknown one is reported, whatever comes
/// after it; a line without any file is turned down only once all its letters
/// have been read. Where both `i` and `f` were given, `i` wins.
pub fn parse_args(args: &Vec<String>) -> (r: Result<Invocation, ParseError>)
    ensures
        match r {
            Ok(invocation) => {
                let letters = flag_letters(texts(args@));
                &&& parse_error(texts(args@)) is None
                &&& texts(invocation.operands@) == operands_of(texts(args@))
                &&& invocation.options.is_force() == (letters.contains('f') && !letters.contains(
                    'i',
                ))
                &&& invocation.options.is_interactive() == letters.contains('i')
                &&& invocation.options.is_verbose() == letters.contains('v')
                &&& invocation.options.is_interactive() ==> !invocation.options.is_force()
            },
            Err(e) => parse_error(texts(args@)) == Some(e),
        },
{
    let ghost tokens = texts(args@);
    if args.len() == 0 {
        return Err(ParseError::NoArguments);
    }
    let mut seen = Seen { force: false, interactive: false, verbose: false };
    let mut operands: Vec<String> = Vec::new();
    let mut i: usize = 0;
    proof {
        reveal(Seq::filter);
        assert(tokens.take(0) =~= Seq::<Seq<char>>::empty());
        assert(texts(operands@) =~= operands_of(tokens.take(0)));
    }
    while i < args.len()
        invariant
            tokens == texts(args@),
            0 <= i <= args.len(),
            first_unknown(flag_letters(tokens.take(i as int))) is None,
            seen.records(flag_letters(tokens.take(i as int))),
            texts(operands@) == operands_of(tokens.take(i as int)),
        decreases args.len() - i,
    {
        let arg = &args[i];
        proof {
            assert(tokens[i as int] == arg@);
            lemma_next_token(tokens, i as int);
            lemma_first_unknown_concat(flag_letters(tokens.take(i as int)), letters_of(arg@));
        }
        if is_flag(arg.as_str()) {
            let ghost before = flag_letters(tokens.take(i as int));
            match read_cluster(arg.as_str(), seen, Ghost(before)) {
                Ok(now) => {
                    seen = now;
                },
                Err(c) => {
                    proof {
                        let head = tokens.take(i as int + 1);
                        let tail = tokens.skip(i as int + 1);
                        assert(tokens =~= head + tail);
                        lemma_flag_letters_concat(head, tail);
                        lemma_first_unknown_concat(flag_letters(head), flag_letters(tail));
                    }
                    return Err(ParseError::InvalidOption(c));
                },
            }
        } else {
            let ghost before = operands@;
            operands.push(arg.clone());
            assert(texts(operands@) =~= texts(before).push(arg@));
        }
        i = i + 1;
    }
    assert(tokens.take(i as int) =~= tokens);
    if operands.len() == 0 {
        return Err(ParseError::MissingOperand);
    }
    Ok(
        Invocation {
            options: Options::requested(seen.force, seen.interactive, seen.verbose),
            operands,
        },
    )
}

/// Some flag cluster of `tokens` holds the letter `c`.
pub open spec fn letter_given(tokens: Seq<Seq<char>>, c: char) -> bool {
    exists|i: int, k: int|
        0 <= i < tokens.len() && is_flag_token(tokens[i]) && 1 <= k < tokens[i].len()
            && #[trigger] tokens[i][k] == c
}

/// Every letter of every flag cluster of `tokens` is a flag.
pub open spec fn all_letters_known(tokens: Seq<Seq<char>>) -> bool {
    forall|i: int, k: int|
        0 <= i < tokens.len() && is_flag_token(tokens[i]) && 1 <= k < tokens[i].len()
            ==> is_flag_letter(#[trigger] tokens[i][k])
}

/// The letters read from a command line are exactly those that stand in one
/// of its flag clusters.
pub proof fn lemma_letters_are_those_given(tokens: Seq<Seq<char>>, c: char)
    ensures
        flag_letters(tokens).contains(c) == letter_given(tokens, c),
    decreases tokens.len(),
{
    if tokens.len() > 0 {
        let init = tokens.drop_last();
        let last = tokens.last();
        let n = init.len() as int;
        lemma_letters_are_those_given(init, c);
        lemma_contains_concat(flag_letters(init), letters_of(last), c);
        if flag_letters(init).contains(c) {
            let (i, k) = choose|i: int, k: int|
                0 <= i < init.len() && is_flag_token(init[i]) && 1 <= k < init[i].len()
                    && #[trigger] init[i][k] == c;
            assert(tokens[i][k] == c);
        }
        if letters_of(last).contains(c) {
            let j = choose|j: int| 0 <= j < letters_of(last).len() && letters_of(last)[j] == c;
            assert(tokens[n][j + 1] == c);
        }
        if letter_given(tokens, c) {
            let (i, k) = choose|i: int, k: int|
                0 <= i < tokens.len() && is_flag_token(tokens[i]) && 1 <= k < tokens[i].len()
                    && #[trigger] tokens[i][k] == c;
            if i < n {
                assert(init[i][k] == c);
            } else {
                assert(letters_of(last)[k - 1] == c);
            }
        }
    }
}

/// No letter is reported exactly when every letter given is a flag.
pub proof fn lemma_no_unknown_letter(tokens: Seq<Seq<char>>)
    ensures
        first_unknown(flag_letters(tokens)) is None <==> all_letters_known(tokens),
{
    let letters = flag_letters(tokens);
    let unknown = letters.filter(is_unknown());
    if unknown.len() > 0 {
        let c = unknown[0];
        letters.lemma_filter_pred(is_unknown(), 0);
        letters.lemma_filter_contains_rev(is_unknown(), c);
        lemma_letters_are_those_given(tokens, c);
    } else {
        assert forall|i: int, k: int|
            0 <= i < tokens.len() && is_flag_token(tokens[i]) && 1 <= k
                < tokens[i].len() implies is_flag_letter(#[trigger] tokens[i][k]) by {
            let c = tokens[i][k];
            lemma_letters_are_those_given(tokens, c);
            if !is_flag_letter(c) {
                let j = choose|j: int| 0 <= j < letters.len() && letters[j] == c;
                letters.lemma_filter_contains(is_unknown(), j);
            }
        }
    }
}

/// What is kept of a line's tokens when its flag clusters are left out:
/// nothing of clusters alone, everything of files alone.
proof fn lemma_operands_of_uniform(tokens: Seq<Seq<char>>)
    ensures
        (forall|i: int| 0 <= i < tokens.len() ==> is_flag_token(#[trigger] tokens[i]))
            ==> operands_of(tokens) == Seq::<Seq<char>>::empty(),
        (forall|i: int| 0 <= i < tokens.len() ==> !is_flag_token(#[trigger] tokens[i]))
            ==> operands_of(tokens) == tokens,
    decreases tokens.len(),
{
    reveal(Seq::filter);
    if tokens.len() > 0 {
        let init = tokens.drop_last();
        lemma_operands_of_uniform(init);
        assert(forall|i: int| 0 <= i < init.len() ==> init[i] == tokens[i]);
        assert(is_flag_token(tokens.last()) == is_flag_token(tokens[tokens.len() - 1]));
        assert(init.push(tokens.last()) =~= tokens);
    } else {
        assert(tokens =~= Seq::<Seq<char>>::empty());
    }
}

/// A command line is accepted exactly when it is not empty, every letter of
/// its flag clusters is a flag, and one of its tokens names a file.
pub proof fn lemma_accepted(tokens: Seq<Seq<char>>)
    ensures
        parse_error(tokens) is None <==> {
            &&& tokens.len() > 0
            &&& all_letters_known(tokens)
            &&& exists|i: int| 0 <= i < tokens.len() && !is_flag_token(#[trigger] tokens[i])
        },
{
    lemma_no_unknown_letter(tokens);
    let files = operands_of(tokens);
    if files.len() > 0 {
        tokens.lemma_filter_pred(names_file(), 0);
        tokens.lemma_filter_contains_rev(names_file(), files[0]);
        let i = choose|i: int| 0 <= i < tokens.len() && tokens[i] == files[0];
        assert(!is_flag_token(tokens[i]));
    }
    if exists|i: int| 0 <= i < tokens.len() && !is_flag_token(#[trigger] tokens[i]) {
        let i = choose|i: int| 0 <= i < tokens.len() && !is_flag_token(#[trigger] tokens[i]);
        tokens.lemma_filter_contains(names_file(), i);
    }
}

/// Flags first, files after: a line of flag clusters that hold only flag
/// letters, followed by at least one file, is accepted. Its operands are the
/// files, in the order given, and the letters read are those of the clusters.
pub proof fn lemma_flags_then_files(flags: Seq<Seq<char>>, files: Seq<Seq<char>>, c: char)
    requires
        forall|i: int| 0 <= i < flags.len() ==> is_flag_token(#[trigger] flags[i]),
        all_letters_known(flags),
        forall|i: int| 0 <= i < files.len() ==> !is_flag_token(#[trigger] files[i]),
        files.len() >= 1,
    ensures
        parse_error(flags + files) is None,
        operands_of(flags + files) == files,
        flag_letters(flags + files).contains(c) == letter_given(flags, c),
{
    let tokens = flags + files;
    lemma_operands_of_uniform(flags);
    lemma_operands_of_uniform(files);
    Seq::filter_distributes_over_add(flags, files, names_file());
    assert(operands_of(tokens) =~= files);
    assert forall|i: int, k: int|
        0 <= i < tokens.len() && is_flag_token(tokens[i]) && 1 <= k
            < tokens[i].len() implies is_flag_letter(#[trigger] tokens[i][k]) by {
        assert(i < flags.len());
        assert(flags[i][k] == tokens[i][k]);
    }
    lemma_no_unknown_letter(tokens);
    lemma_letters_are_those_given(tokens, c);
    lemma_letters_are_those_given(flags, c);
    lemma_flag_letters_concat(flags, files);
    lemma_letters_are_those_given(files, c);
    lemma_contains_concat(flag_letters(flags), flag_letters(files), c);
    if letter_given(files, c) {
        let (i, k) = choose|i: int, k: int|
            0 <= i < files.len() && is_flag_token(files[i]) && 1 <= k < files[i].len()
                && #[trigger] files[i][k] == c;
    }
}

} // verus!
