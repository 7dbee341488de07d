//! The decisions of the interactive prompt: completion, hints, and what a
//! line asks for.

use vstd::prelude::*;
use vstd::string::*;
use crate::text::{
    chars_of, split_words, starts_with, string_of, strings_view, text_starts_with, words,
};

verus! {

/// The commands that the prompt completes.
pub open spec fn command_list() -> Seq<Seq<char>> {
    seq!["clone"@, "pull"@, "push"@, "config user"@, "help"@, "exit"@, "quit"@]
}

/// The commands of `cmds` that begin with `input`, in order.
pub open spec fn completions_of(cmds: Seq<Seq<char>>, input: Seq<char>) -> Seq<Seq<char>>
    decreases cmds.len(),
{
    if cmds.len() == 0 {
        Seq::empty()
    } else if starts_with(cmds.last(), input) {
        completions_of(cmds.drop_last(), input).push(cmds.last())
    } else {
        completions_of(cmds.drop_last(), input)
    }
}

/// The rest of the first command that begins with `line` and is longer.
pub open spec fn hint_of(cmds: Seq<Seq<char>>, line: Seq<char>) -> Option<Seq<char>>
    decreases cmds.len(),
{
    if cmds.len() == 0 {
        None
    } else if starts_with(cmds[0], line) && cmds[0] != line {
        Some(cmds[0].subrange(line.len() as int, cmds[0].len() as int))
    } else {
        hint_of(cmds.drop_first(), line)
    }
}

/// Completion, hints and highlighting for the prompt.
pub struct GitpHelper {
    commands: Vec<String>,
}

impl GitpHelper {
    pub closed spec fn commands(self) -> Seq<Seq<char>> {
        strings_view(self.commands@)
    }

    pub fn new() -> (r: GitpHelper)
        ensures
            r.commands() == command_list(),
    {
        let mut commands: Vec<String> = Vec::new();
        commands.push(String::from_str("clone"));
        commands.push(String::from_str("pull"));
        commands.push(String::from_str("push"));
        commands.push(String::from_str("config user"));
        commands.push(String::from_str("help"));
        commands.push(String::from_str("exit"));
        commands.push(String::from_str("quit"));
        let r = GitpHelper { commands };
        assert(r.commands() =~= command_list());
        r
    }

    /// The commands that begin with `input`, in order.
    pub fn completions(&self, input: &str) -> (r: Vec<String>)
        ensures
            strings_view(r@) == completions_of(self.commands(), input@),
    {
        let p = chars_of(input);
        let ghost cmds = self.commands();
        let mut r: Vec<String> = Vec::new();
        let mut i: usize = 0;
        while i < self.commands.len()
            invariant
                i <= self.commands@.len(),
                cmds == strings_view(self.commands@),
                p@ == input@,
                strings_view(r@) == completions_of(cmds.take(i as int), input@),
            decreases self.commands.len() - i,
        {
            let ghost t = cmds.take(i + 1);
            assert(t.drop_last() =~= cmds.take(i as int));
            assert(t.last() == self.commands@[i as int]@);
            let c = chars_of(self.commands[i].as_str());
            if text_starts_with(&c, &p) {
                let ghost before = r@;
                r.push(self.commands[i].clone());
                assert(strings_view(r@) =~= strings_view(before).push(self.commands@[i as int]@));
            }
            i = i + 1;
        }
        assert(cmds.take(self.commands.len() as int) =~= cmds);
        r
    }

    /// What to show after the cursor: nothing unless it stands at the end of
    /// the line, else the rest of the first longer command that the line
    /// begins.
    pub fn hint(&self, line: &str, at_end: bool) -> (r: Option<String>)
        ensures
            !at_end ==> r is None,
            at_end ==> match (r, hint_of(self.commands(), line@)) {
                (None, None) => true,
                (Some(s), Some(h)) => s@ == h,
                _ => false,
            },
    {
        if !at_end {
            return None;
        }
        let p = chars_of(line);
        let ghost cmds = self.commands();
        let mut i: usize = 0;
        assert(cmds.subrange(0, cmds.len() as int) =~= cmds);
        while i < self.commands.len()
            invariant
                at_end,
                i <= self.commands@.len(),
                cmds == strings_view(self.commands@),
                p@ == line@,
                hint_of(cmds, line@) == hint_of(cmds.subrange(i as int, cmds.len() as int), line@),
            decreases self.commands.len() - i,
        {
            let ghost rest = cmds.subrange(i as int, cmds.len() as int);
            assert(rest.drop_first() =~= cmds.subrange(i + 1, cmds.len() as int));
            assert(rest[0] == self.commands@[i as int]@);
            let c = chars_of(self.commands[i].as_str());
            if text_starts_with(&c, &p) && c.len() != p.len() {
                let mut tail: Vec<char> = Vec::new();
                let mut k: usize = p.len();
                while k < c.len()
                    invariant
                        p@.len() <= k <= c@.len(),
                        tail@ == c@.subrange(p@.len() as int, k as int),
                    decreases c.len() - k,
                {
                    tail.push(c[k]);
                    assert(tail@ =~= c@.subrange(p@.len() as int, k + 1));
                    k = k + 1;
                }
                return Some(string_of(&tail));
            }
            assert(!(starts_with(rest[0], line@) && rest[0] != line@)) by {
                if starts_with(rest[0], line@) && c@.len() == p@.len() {
                    assert(rest[0] =~= rest[0].subrange(0, p@.len() as int));
                }
            }
            i = i + 1;
        }
        assert(cmds.subrange(cmds.len() as int, cmds.len() as int) =~= Seq::<Seq<char>>::empty());
        None
    }

    /// Whether `line` is exactly one of the commands.
    pub fn is_command(&self, line: &str) -> (r: bool)
        ensures
            r == self.commands().contains(line@),
    {
        let l = String::from_str(line);
        let mut i: usize = 0;
        while i < self.commands.len()
            invariant
                i <= self.commands@.len(),
                l@ == line@,
                forall|j: int| 0 <= j < i ==> self.commands@[j]@ != line@,
            decreases self.commands.len() - i,
        {
            if self.commands[i] == l {
                assert(self.commands()[i as int] == line@);
                return true;
            }
            i = i + 1;
        }
        assert(!self.commands().contains(line@)) by {
            if self.commands().contains(line@) {
                let j = choose|j: int| 0 <= j < self.commands().len() && self.commands()[j]
                    == line@;
                assert(self.commands@[j]@ == line@);
            }
        }
        false
    }
}

/// What a line typed at the prompt asks for.
pub enum LineAction {
    /// A blank line: ask again.
    Skip,
    Exit,
    Help,
    /// Run the command made of these words.
    Run(Vec<String>),
}

proof fn lemma_single_eq(a: Seq<char>, b: Seq<char>)
    ensures
        (seq![a] == seq![b]) == (a == b),
{
    if seq![a] == seq![b] {
        assert(seq![a][0] == seq![b][0]);
    }
    if a == b {
        assert(seq![a] =~= seq![b]);
    }
}

/// Interprets a line typed at the prompt by its words.
pub fn interpret_line(line: &str) -> (r: LineAction)
    ensures
        ({
            let w = words(line@);
            if w.len() == 0 {
                r is Skip
            } else if w == seq!["exit"@] || w == seq!["quit"@] {
                r is Exit
            } else if w == seq!["help"@] || w == seq!["?"@] {
                r is Help
            } else {
                r matches LineAction::Run(parts) && strings_view(parts@) == w
            }
        }),
{
    let parts = split_words(line);
    proof {
        reveal_strlit("exit");
        reveal_strlit("quit");
        reveal_strlit("help");
        reveal_strlit("?");
    }
    assert(strings_view(parts@) == words(line@));
    if parts.len() == 0 {
        return LineAction::Skip;
    }
    if parts.len() == 1 {
        let first = &parts[0];
        assert(words(line@) =~= seq![first@]);
        proof {
            lemma_single_eq(first@, "exit"@);
            lemma_single_eq(first@, "quit"@);
            lemma_single_eq(first@, "help"@);
            lemma_single_eq(first@, "?"@);
        }
        if *first == String::from_str("exit") || *first == String::from_str("quit") {
            return LineAction::Exit;
        }
        if *first == String::from_str("help") || *first == String::from_str("?") {
            return LineAction::Help;
        }
    }
    LineAction::Run(parts)
}

} // verus!
