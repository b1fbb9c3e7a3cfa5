//! The state carried over between runs: where the browser last stood and
//! what the queue held, together with the line-based text form it is
//! stored in.  Only the filesystem touch — reading and writing the file at
//! its well-known location — stays with the caller.

use vstd::prelude::*;

use crate::queue::Queue;

verus! {

/// What survives a clean shutdown and seeds the next run.
pub struct State {
    pub last_visited_path: Option<String>,
    pub queue_items: Vec<String>,
}

/// The character sequences behind a sequence of strings.
pub open spec fn views_of(lines: Seq<String>) -> Seq<Seq<char>> {
    lines.map_values(|l: String| l@)
}

/// True when no character of `s` is a line break.
pub open spec fn no_newline(s: Seq<char>) -> bool {
    forall|i: int| 0 <= i < s.len() ==> s[i] != '\n'
}

/// The lines of `text`: split at every line break, the break consumed,
/// and an unterminated tail counting as a line of its own.
pub open spec fn spec_split_lines(text: Seq<char>) -> Seq<Seq<char>>
    decreases text.len(),
{
    if text.len() == 0 {
        Seq::empty()
    } else {
        let rest = spec_split_lines(text.subrange(1, text.len() as int));
        if text[0] == '\n' {
            seq![Seq::<char>::empty()] + rest
        } else if rest.len() == 0 {
            seq![text]
        } else {
            seq![seq![text[0]] + rest[0]] + rest.subrange(1, rest.len() as int)
        }
    }
}

/// The text with the given lines, each terminated by a line break.
pub open spec fn spec_join_lines(lines: Seq<Seq<char>>) -> Seq<char>
    decreases lines.len(),
{
    if lines.len() == 0 {
        Seq::empty()
    } else {
        lines[0] + seq!['\n'] + spec_join_lines(lines.subrange(1, lines.len() as int))
    }
}

/// Splitting off one terminated line: the text `line`, a break, then
/// `rest` splits into `line` followed by the lines of `rest`.
proof fn lemma_split_line_prefix(line: Seq<char>, rest: Seq<char>)
    requires
        no_newline(line),
    ensures
        spec_split_lines(line + seq!['\n'] + rest) == seq![line] + spec_split_lines(rest),
    decreases line.len(),
{
    let s = line + seq!['\n'] + rest;
    if line.len() == 0 {
        assert(s =~= seq!['\n'] + rest);
        assert(s.subrange(1, s.len() as int) =~= rest);
        assert(line =~= Seq::<char>::empty());
        assert(seq![Seq::<char>::empty()] =~= seq![line]);
    } else {
        let tail = line.subrange(1, line.len() as int);
        lemma_split_line_prefix(tail, rest);
        assert(s.subrange(1, s.len() as int) =~= tail + seq!['\n'] + rest);
        let sub_split = spec_split_lines(tail + seq!['\n'] + rest);
        assert(sub_split == seq![tail] + spec_split_lines(rest));
        assert(sub_split.len() > 0);
        assert(s[0] == line[0]);
        assert(seq![s[0]] + sub_split[0] =~= line);
        assert(sub_split.subrange(1, sub_split.len() as int) =~= spec_split_lines(rest));
        assert(spec_split_lines(s) =~= seq![line] + spec_split_lines(rest));
    }
}

/// A non-empty text without line breaks is one unterminated line.
proof fn lemma_split_no_newline(s: Seq<char>)
    requires
        s.len() > 0,
        no_newline(s),
    ensures
        spec_split_lines(s) == seq![s],
    decreases s.len(),
{
    let tail = s.subrange(1, s.len() as int);
    if s.len() > 1 {
        lemma_split_no_newline(tail);
        let rest = spec_split_lines(tail);
        assert(rest.len() == 1);
        assert(seq![s[0]] + rest[0] =~= s);
        assert(rest.subrange(1, 1) =~= Seq::<Seq<char>>::empty());
        assert(spec_split_lines(s) =~= seq![s]);
    } else {
        assert(tail =~= Seq::<char>::empty());
        assert(spec_split_lines(tail) =~= Seq::<Seq<char>>::empty());
        assert(spec_split_lines(s) =~= seq![s]);
    }
}

/// Appending one more line to a joined text.
proof fn lemma_join_snoc(lines: Seq<Seq<char>>, line: Seq<char>)
    ensures
        spec_join_lines(lines.push(line)) == spec_join_lines(lines) + line + seq!['\n'],
    decreases lines.len(),
{
    if lines.len() == 0 {
        assert(lines.push(line)[0] == line);
        assert(lines.push(line).subrange(1, 1) =~= Seq::<Seq<char>>::empty());
        assert(spec_join_lines(lines.push(line).subrange(1, 1)) =~= Seq::<char>::empty());
        assert(spec_join_lines(lines.push(line)) =~= line + seq!['\n']);
        assert(spec_join_lines(lines) + line + seq!['\n'] =~= line + seq!['\n']);
    } else {
        lemma_join_snoc(lines.subrange(1, lines.len() as int), line);
        assert(lines.push(line).subrange(1, lines.push(line).len() as int) =~= lines.subrange(
            1,
            lines.len() as int,
        ).push(line));
        assert(lines.push(line)[0] == lines[0]);
        assert(spec_join_lines(lines.push(line)) =~= spec_join_lines(lines) + line + seq!['\n']);
    }
}

/// Law: the line format round-trips.  Joining any lines free of line
/// breaks and splitting the result gives the same lines back.
pub proof fn lemma_split_of_join(lines: Seq<Seq<char>>)
    requires
        forall|i: int| 0 <= i < lines.len() ==> no_newline(#[trigger] lines[i]),
    ensures
        spec_split_lines(spec_join_lines(lines)) == lines,
    decreases lines.len(),
{
    if lines.len() > 0 {
        let rest = lines.subrange(1, lines.len() as int);
        lemma_split_line_prefix(lines[0], spec_join_lines(rest));
        lemma_split_of_join(rest);
        assert(seq![lines[0]] + rest =~= lines);
    }
}

impl State {
    /// What the line format can carry: paths free of line breaks, and a
    /// last-visited directory that is not the empty string (an empty first
    /// line stands for "none"), queue items non-empty likewise.
    pub open spec fn wf(self) -> bool {
        &&& (self.last_visited_path matches Some(p) ==> p@.len() > 0 && no_newline(p@))
        &&& (forall|i: int|
            0 <= i < self.queue_items@.len() ==> (#[trigger] self.queue_items@[i])@.len() > 0
                && no_newline(self.queue_items@[i]@))
    }

    /// The state as lines: the last visited directory (or an empty line)
    /// first, then one line per queued path.
    pub open spec fn lines(self) -> Seq<Seq<char>> {
        seq![
            match self.last_visited_path {
                Some(p) => p@,
                None => Seq::empty(),
            },
        ] + views_of(self.queue_items@)
    }
}

/// Serializes the state into its text form: every line terminated by a
/// line break, the last visited directory (or an empty line) first, then
/// the queued paths in order.
pub fn encode_state(state: &State) -> (r: String)
    ensures
        r@ == spec_join_lines(state.lines()),
{
    proof {
        reveal_strlit("\n");
    }
    let ghost all_lines: Seq<Seq<char>> = state.lines();
    let mut r: String = match &state.last_visited_path {
        Some(p) => p.clone(),
        None => String::new(),
    };
    r.append("\n");
    proof {
        assert(all_lines[0] == (match state.last_visited_path {
            Some(p) => p@,
            None => Seq::<char>::empty(),
        }));
        assert(r@ =~= all_lines[0] + seq!['\n']);
        assert(all_lines.subrange(0, 1) =~= seq![all_lines[0]]);
        assert(seq![all_lines[0]].subrange(1, 1) =~= Seq::<Seq<char>>::empty());
        assert(spec_join_lines(seq![all_lines[0]].subrange(1, 1)) =~= Seq::<char>::empty());
        assert(r@ =~= spec_join_lines(all_lines.subrange(0, 1)));
    }
    let mut k: usize = 0;
    while k < state.queue_items.len()
        invariant
            k <= state.queue_items@.len(),
            all_lines == state.lines(),
            all_lines.len() == 1 + state.queue_items@.len(),
            forall|i: int|
                0 <= i < state.queue_items@.len() ==> all_lines[i + 1] == (
                #[trigger] state.queue_items@[i])@,
            r@ == spec_join_lines(all_lines.subrange(0, 1 + k)),
        decreases state.queue_items@.len() - k,
    {
        proof {
            reveal_strlit("\n");
        }
        r.append(state.queue_items[k].as_str());
        r.append("\n");
        proof {
            lemma_join_snoc(all_lines.subrange(0, 1 + k), all_lines[1 + k]);
            assert(all_lines.subrange(0, 1 + k).push(all_lines[1 + k]) =~= all_lines.subrange(
                0,
                2 + k,
            ));
            assert(r@ =~= spec_join_lines(all_lines.subrange(0, 2 + k)));
        }
        k = k + 1;
    }
    proof {
        assert(all_lines.subrange(0, all_lines.len() as int) =~= all_lines);
    }
    r
}

/// Splits a text into its lines, the terminators consumed, exactly as
/// `spec_split_lines` states.
pub fn split_lines(text: &str) -> (lines: Vec<String>)
    ensures
        views_of(lines@) == spec_split_lines(text@),
{
    let n = text.unicode_len();
    let mut lines: Vec<String> = Vec::new();
    let mut line_start: usize = 0;
    let mut i: usize = 0;
    proof {
        assert(views_of(lines@) =~= Seq::<Seq<char>>::empty());
        assert(text@.subrange(0, n as int) =~= text@);
    }
    while i < n
        invariant
            line_start <= i <= n,
            n == text@.len(),
            forall|j: int| line_start <= j < i ==> text@[j] != '\n',
            spec_split_lines(text@) == views_of(lines@) + spec_split_lines(
                text@.subrange(line_start as int, n as int),
            ),
        decreases n - i,
    {
        if text.get_char(i) == '\n' {
            let line = text.substring_char(line_start, i).to_owned();
            let ghost prior = lines@;
            lines.push(line);
            proof {
                let prefix = text@.subrange(line_start as int, i as int);
                let rest = text@.subrange(i as int + 1, n as int);
                assert(text@.subrange(line_start as int, n as int) =~= prefix + seq!['\n']
                    + rest);
                lemma_split_line_prefix(prefix, rest);
                assert(views_of(lines@) =~= views_of(prior).push(prefix));
                assert(views_of(prior) + (seq![prefix] + spec_split_lines(rest)) =~= views_of(
                    lines@,
                ) + spec_split_lines(rest));
            }
            line_start = i + 1;
        }
        i = i + 1;
    }
    if line_start < n {
        let line = text.substring_char(line_start, n).to_owned();
        let ghost prior = lines@;
        lines.push(line);
        proof {
            let tail = text@.subrange(line_start as int, n as int);
            lemma_split_no_newline(tail);
            assert(views_of(lines@) =~= views_of(prior).push(tail));
            assert(views_of(prior) + seq![tail] =~= views_of(lines@));
        }
    } else {
        proof {
            assert(text@.subrange(line_start as int, n as int) =~= Seq::<char>::empty());
            assert(spec_split_lines(Seq::<char>::empty()) =~= Seq::<Seq<char>>::empty());
            assert(views_of(lines@) + Seq::<Seq<char>>::empty() =~= views_of(lines@));
        }
    }
    lines
}

/// Reads a state back from its text form: the first line is the last
/// visited directory (empty meaning none), every further line one queued
/// path.  Total: any text parses, an empty one to the defaults.
pub fn parse_state(text: &str) -> (s: State)
    ensures
        ({
            let lines = spec_split_lines(text@);
            &&& (if lines.len() == 0 || lines[0].len() == 0 {
                s.last_visited_path is None
            } else {
                s.last_visited_path matches Some(p) && p@ == lines[0]
            })
            &&& (if lines.len() == 0 {
                s.queue_items@.len() == 0
            } else {
                views_of(s.queue_items@) == lines.subrange(1, lines.len() as int)
            })
        }),
{
    let mut lines = split_lines(text);
    if lines.len() == 0 {
        State { last_visited_path: None, queue_items: Vec::new() }
    } else {
        let ghost prior = lines@;
        let first = lines.remove(0);
        proof {
            assert(views_of(prior)[0] == first@);
            assert(views_of(lines@) =~= views_of(prior).subrange(1, views_of(prior).len() as int));
        }
        let last_visited_path = if first.as_str().is_empty() {
            None
        } else {
            Some(first)
        };
        State { last_visited_path, queue_items: lines }
    }
}

/// Law: the persisted state round-trips through its text form.  For a
/// well-formed state, splitting the encoded text yields exactly the
/// state's lines back: the last visited directory in the first line (an
/// empty line when there is none) and the queued paths in order after it,
/// which is just what `parse_state` rebuilds the state from.
pub proof fn lemma_state_round_trip(s: State)
    requires
        s.wf(),
    ensures
        spec_split_lines(spec_join_lines(s.lines())) == s.lines(),
        s.lines().len() == 1 + s.queue_items@.len(),
        (match s.last_visited_path {
            Some(p) => s.lines()[0] == p@ && p@.len() > 0,
            None => s.lines()[0].len() == 0,
        }),
        s.lines().subrange(1, s.lines().len() as int) == views_of(s.queue_items@),
{
    assert forall|i: int| 0 <= i < s.lines().len() implies no_newline(
        #[trigger] s.lines()[i],
    ) by {
        if i > 0 {
            assert(s.lines()[i] == s.queue_items@[i - 1]@);
        }
    }
    lemma_split_of_join(s.lines());
    assert(s.lines().subrange(1, s.lines().len() as int) =~= views_of(s.queue_items@));
}

/// The snapshot written on shutdown: the browser's directory as it was
/// handed in, and the queued items' paths in order.
pub fn to_state(last_visited_path: Option<String>, queue: &Queue) -> (s: State)
    ensures
        (match last_visited_path {
            Some(p) => s.last_visited_path matches Some(q) && q@ == p@,
            None => s.last_visited_path is None,
        }),
        s.queue_items@.len() == queue.items@.len(),
        forall|i: int|
            0 <= i < s.queue_items@.len() ==> s.queue_items@[i]@ == queue.items@[i].path@,
{
    State { last_visited_path, queue_items: queue.paths() }
}

} // verus!
