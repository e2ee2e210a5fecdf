//! The front end's command grammar.
//!
//! A command line is split into whitespace-separated tokens by the front
//! end; what the tokens mean — which command, which operand, how the
//! trailing argument tokens are joined back together — is decided here,
//! so the mapping from input to engine operation is pinned down exactly.

use vstd::prelude::*;
use crate::text_order::TextCmp;
use crate::text_order::str_compare;
use vstd::string::StringExecFns;

verus! {

/// One parsed front-end command.
pub enum Command {
    /// `run <function> [args...]`: begin an invocation.
    Run { function: String, args: Option<String> },
    /// `run` with no function name: the usage line is shown.
    RunMissingFunction,
    /// `s` or `step`: advance one call boundary.
    Step,
    /// `c` or `continue`: resume until breakpoint, completion or fault.
    Continue,
    /// `i` or `inspect`: show the current execution state.
    Inspect,
    /// `storage`: display the storage snapshot.
    Storage,
    /// `stack`: show the call stack.
    Stack,
    /// `budget`: show CPU and memory usage.
    Budget,
    /// `break <function>`: set a breakpoint.
    Break { function: String },
    /// `break` with no function name.
    BreakMissingName,
    /// `list-breaks`: list all breakpoints.
    ListBreaks,
    /// `clear <function>`: remove a breakpoint.
    Clear { function: String },
    /// `clear` with no function name.
    ClearMissingName,
    /// `help`: show the command summary.
    Help,
    /// `q`, `quit` or `exit`: leave the debugger.
    Quit,
    /// An empty line: nothing to do.
    Empty,
    /// Any other first token.
    Unknown { word: String },
}

/// The views of a token list.
pub open spec fn token_views(tokens: Seq<String>) -> Seq<Seq<char>> {
    tokens.map_values(|s: String| s@)
}

/// The tokens joined back together with single spaces between them.
pub open spec fn join_spaced(parts: Seq<Seq<char>>) -> Seq<char>
    decreases parts.len(),
{
    if parts.len() == 0 {
        Seq::<char>::empty()
    } else if parts.len() == 1 {
        parts[0]
    } else {
        join_spaced(parts.drop_last()) + seq![' '] + parts.last()
    }
}

/// Joins `tokens[from..]` with single spaces; `None` when no tokens are
/// left.
fn join_tokens(tokens: &Vec<String>, from: usize) -> (r: Option<String>)
    ensures
        r is Some <==> from < tokens@.len(),
        r matches Some(s) ==> s@ == join_spaced(
            token_views(tokens@).subrange(from as int, tokens@.len() as int),
        ),
{
    if from >= tokens.len() {
        return None;
    }
    let ghost parts = token_views(tokens@);
    let mut out: String = tokens[from].clone();
    let mut i: usize = from + 1;
    proof {
        assert(parts.subrange(from as int, from + 1) =~= seq![parts[from as int]]);
    }
    while i < tokens.len()
        invariant
            from < i <= tokens@.len(),
            parts == token_views(tokens@),
            parts.len() == tokens@.len(),
            out@ == join_spaced(parts.subrange(from as int, i as int)),
        decreases tokens@.len() - i,
    {
        out.append(" ");
        out.append(tokens[i].as_str());
        proof {
            reveal_strlit(" ");
            assert(" "@ =~= seq![' ']);
            let prev = parts.subrange(from as int, i as int);
            let cur = parts.subrange(from as int, i + 1);
            assert(cur.drop_last() =~= prev);
            assert(cur.last() == parts[i as int]);
        }
        i = i + 1;
    }
    proof {
        assert(parts.subrange(from as int, tokens@.len() as int) == parts.subrange(
            from as int,
            i as int,
        ));
    }
    Some(out)
}

/// Whether the token is that word.
fn token_is(token: &String, word: &str) -> (r: bool)
    ensures
        r <==> token@ == word@,
{
    match str_compare(token.as_str(), word) {
        TextCmp::Equal => true,
        _ => false,
    }
}

/// Maps a tokenised command line to the command it means.  The first
/// token selects the command; `run`, `break` and `clear` take the next
/// token as operand, and `run` joins any further tokens into one argument
/// string.
#[verifier::rlimit(60)]
pub fn parse_command(tokens: &Vec<String>) -> (c: Command)
    ensures
        tokens@.len() == 0 <==> c is Empty,
        tokens@.len() >= 1 && tokens@[0]@ == "run"@ && tokens@.len() == 1 ==> c
            is RunMissingFunction,
        tokens@.len() >= 2 && tokens@[0]@ == "run"@ ==> (c matches Command::Run { function, args }
            && function@ == tokens@[1]@ && (tokens@.len() == 2 <==> args is None) && (
        args matches Some(a) ==> a@ == join_spaced(
            token_views(tokens@).subrange(2, tokens@.len() as int),
        ))),
        tokens@.len() >= 1 && (tokens@[0]@ == "s"@ || tokens@[0]@ == "step"@) ==> c is Step,
        tokens@.len() >= 1 && (tokens@[0]@ == "c"@ || tokens@[0]@ == "continue"@) ==> c
            is Continue,
        tokens@.len() >= 1 && (tokens@[0]@ == "i"@ || tokens@[0]@ == "inspect"@) ==> c is Inspect,
        tokens@.len() >= 1 && tokens@[0]@ == "storage"@ ==> c is Storage,
        tokens@.len() >= 1 && tokens@[0]@ == "stack"@ ==> c is Stack,
        tokens@.len() >= 1 && tokens@[0]@ == "budget"@ ==> c is Budget,
        tokens@.len() >= 1 && tokens@[0]@ == "break"@ && tokens@.len() == 1 ==> c
            is BreakMissingName,
        tokens@.len() >= 2 && tokens@[0]@ == "break"@ ==> (c matches Command::Break { function }
            && function@ == tokens@[1]@),
        tokens@.len() >= 1 && tokens@[0]@ == "list-breaks"@ ==> c is ListBreaks,
        tokens@.len() >= 1 && tokens@[0]@ == "clear"@ && tokens@.len() == 1 ==> c
            is ClearMissingName,
        tokens@.len() >= 2 && tokens@[0]@ == "clear"@ ==> (c matches Command::Clear { function }
            && function@ == tokens@[1]@),
        tokens@.len() >= 1 && tokens@[0]@ == "help"@ ==> c is Help,
        tokens@.len() >= 1 && (tokens@[0]@ == "q"@ || tokens@[0]@ == "quit"@ || tokens@[0]@
            == "exit"@) ==> c is Quit,
        tokens@.len() >= 1 && tokens@[0]@ != "run"@ && tokens@[0]@ != "s"@ && tokens@[0]@
            != "step"@ && tokens@[0]@ != "c"@ && tokens@[0]@ != "continue"@ && tokens@[0]@ != "i"@
            && tokens@[0]@ != "inspect"@ && tokens@[0]@ != "storage"@ && tokens@[0]@ != "stack"@
            && tokens@[0]@ != "budget"@ && tokens@[0]@ != "break"@ && tokens@[0]@
            != "list-breaks"@ && tokens@[0]@ != "clear"@ && tokens@[0]@ != "help"@ && tokens@[0]@
            != "q"@ && tokens@[0]@ != "quit"@ && tokens@[0]@ != "exit"@ ==> (c
            matches Command::Unknown { word } && word@ == tokens@[0]@),
{
    proof {
        reveal_strlit("run");
        reveal_strlit("s");
        reveal_strlit("step");
        reveal_strlit("c");
        reveal_strlit("continue");
        reveal_strlit("i");
        reveal_strlit("inspect");
        reveal_strlit("storage");
        reveal_strlit("stack");
        reveal_strlit("budget");
        reveal_strlit("break");
        reveal_strlit("list-breaks");
        reveal_strlit("clear");
        reveal_strlit("help");
        reveal_strlit("q");
        reveal_strlit("quit");
        reveal_strlit("exit");
        assert(("run"@).len() == 3 && ("run"@)[0] == 'r');
        assert(("s"@).len() == 1 && ("s"@)[0] == 's');
        assert(("step"@).len() == 4 && ("step"@)[0] == 's');
        assert(("c"@).len() == 1 && ("c"@)[0] == 'c');
        assert(("continue"@).len() == 8 && ("continue"@)[0] == 'c');
        assert(("i"@).len() == 1 && ("i"@)[0] == 'i');
        assert(("inspect"@).len() == 7 && ("inspect"@)[0] == 'i');
        assert(("storage"@).len() == 7 && ("storage"@)[0] == 's');
        assert(("stack"@).len() == 5 && ("stack"@)[0] == 's');
        assert(("budget"@).len() == 6 && ("budget"@)[0] == 'b');
        assert(("break"@).len() == 5 && ("break"@)[0] == 'b');
        assert(("list-breaks"@).len() == 11 && ("list-breaks"@)[0] == 'l');
        assert(("clear"@).len() == 5 && ("clear"@)[0] == 'c');
        assert(("help"@).len() == 4 && ("help"@)[0] == 'h');
        assert(("q"@).len() == 1 && ("q"@)[0] == 'q');
        assert(("quit"@).len() == 4 && ("quit"@)[0] == 'q');
        assert(("exit"@).len() == 4 && ("exit"@)[0] == 'e');
        assert(("inspect"@)[1] == 'n' && ("storage"@)[1] == 't');
    }
    if tokens.len() == 0 {
        return Command::Empty;
    }
    let head = &tokens[0];
    if token_is(head, "run") {
        if tokens.len() < 2 {
            Command::RunMissingFunction
        } else {
            Command::Run { function: tokens[1].clone(), args: join_tokens(tokens, 2) }
        }
    } else if token_is(head, "s") || token_is(head, "step") {
        Command::Step
    } else if token_is(head, "c") || token_is(head, "continue") {
        Command::Continue
    } else if token_is(head, "i") || token_is(head, "inspect") {
        Command::Inspect
    } else if token_is(head, "storage") {
        Command::Storage
    } else if token_is(head, "stack") {
        Command::Stack
    } else if token_is(head, "budget") {
        Command::Budget
    } else if token_is(head, "break") {
        if tokens.len() < 2 {
            Command::BreakMissingName
        } else {
            Command::Break { function: tokens[1].clone() }
        }
    } else if token_is(head, "list-breaks") {
        Command::ListBreaks
    } else if token_is(head, "clear") {
        if tokens.len() < 2 {
            Command::ClearMissingName
        } else {
            Command::Clear { function: tokens[1].clone() }
        }
    } else if token_is(head, "help") {
        Command::Help
    } else if token_is(head, "q") || token_is(head, "quit") || token_is(head, "exit") {
        Command::Quit
    } else {
        Command::Unknown { word: head.clone() }
    }
}

} // verus!
