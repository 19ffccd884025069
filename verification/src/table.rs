//! The candidate-matching engine: a growing key sequence is narrowed against
//! a dictionary of `(character, sequence)` entries, and each key press is
//! resolved through a key mapping to a command or a plain character.

use vstd::prelude::*;
use vstd::string::StrSliceExecFns;
use std::collections::HashMap;
use crate::AnkraResponse;
use crate::RespView;

verus! {

/// One dictionary row: the character produced when `sequence` is committed.
pub struct Entry {
    pub character: char,
    pub sequence: String,
}

/// The dictionary: entries in load order (order breaks candidate ties).
pub struct Table {
    pub id: String,
    pub entries: Vec<Entry>,
}

/// The key mapping: `specs` resolves a keycode to command tokens (the first
/// token is taken), `keys` resolves a keycode to plain characters (the first
/// character is taken).
pub struct TableConfig {
    pub specs: HashMap<u16, Vec<String>>,
    pub keys: HashMap<u16, Vec<char>>,
}

/// Composition state: the typed `key_sequence`, the cursor `index` into the
/// filtered candidate list `relative_entries`, and a reserved (currently
/// always empty) `previous_character` buffer.
pub struct TableState {
    pub table: Table,
    pub config: TableConfig,
    pub key_sequence: String,
    pub index: usize,
    pub relative_entries: Vec<Entry>,
    pub previous_character: String,
}

/// Spec-level image of the mutable part of a [`TableState`].
#[verifier::ext_equal]
pub struct MatchView {
    pub ks: Seq<char>,
    pub index: int,
    pub entries: Seq<Entry>,
    pub prev: Seq<char>,
}

impl View for TableState {
    type V = MatchView;

    open spec fn view(&self) -> MatchView {
        MatchView {
            ks: self.key_sequence@,
            index: self.index as int,
            entries: self.relative_entries@,
            prev: self.previous_character@,
        }
    }
}

/// The state every composition starts from and returns to.
pub open spec fn reset_view() -> MatchView {
    MatchView { ks: Seq::empty(), index: 0, entries: Seq::empty(), prev: Seq::empty() }
}

/// An entry is a candidate for `ks` when its sequence starts with `ks`.
pub open spec fn entry_matches(e: Entry, ks: Seq<char>) -> bool {
    ks.is_prefix_of(e.sequence@)
}

/// The candidates for `ks` among `entries`, order preserved.
pub open spec fn rescan(entries: Seq<Entry>, ks: Seq<char>) -> Seq<Entry> {
    entries.filter(|e: Entry| entry_matches(e, ks))
}

/// A command a keycode can resolve to, or the character it inserts.
pub enum Command {
    Commit,
    Next,
    Prev,
    Escape,
    Backspace,
    Digit(char),
    Insert(char),
    Pass,
}

/// The first command token mapped to `key`, if any.
pub open spec fn first_spec_token(cfg: TableConfig, key: u16) -> Option<Seq<char>> {
    if cfg.specs@.contains_key(key) && cfg.specs@[key]@.len() > 0 {
        Some(cfg.specs@[key]@[0]@)
    } else {
        None
    }
}

/// The first character of the first command token mapped to `key`, if any.
pub open spec fn first_spec_char(cfg: TableConfig, key: u16) -> Option<char> {
    match first_spec_token(cfg, key) {
        Some(t) => if t.len() > 0 {
            Some(t[0])
        } else {
            None
        },
        None => None,
    }
}

/// The first plain character mapped to `key`, if any.
pub open spec fn key_char(cfg: TableConfig, key: u16) -> Option<char> {
    if cfg.keys@.contains_key(key) && cfg.keys@[key]@.len() > 0 {
        Some(cfg.keys@[key]@[0])
    } else {
        None
    }
}

/// Falling back from command resolution: insert a mapped character or pass.
pub open spec fn insert_or_pass(cfg: TableConfig, key: u16) -> Command {
    match key_char(cfg, key) {
        Some(c) => Command::Insert(c),
        None => Command::Pass,
    }
}

/// How a keycode is interpreted: command tokens are recognized by their first
/// character; any other (or no) token falls back to the character map.
pub open spec fn spec_command(cfg: TableConfig, key: u16) -> Command {
    match first_spec_char(cfg, key) {
        Some(c) => if c == 'C' {
            Command::Commit
        } else if c == 'N' {
            Command::Next
        } else if c == 'P' {
            Command::Prev
        } else if c == 'E' {
            Command::Escape
        } else if c == 'B' {
            Command::Backspace
        } else if 48 <= c as u32 && c as u32 <= 57 {
            Command::Digit(c)
        } else {
            insert_or_pass(cfg, key)
        },
        None => insert_or_pass(cfg, key),
    }
}

/// The key sequence after a command: backspace drops the last character (a
/// no-op when already empty), an insert appends, all else leaves it alone.
pub open spec fn ks_after(cmd: Command, ks: Seq<char>) -> Seq<char> {
    match cmd {
        Command::Backspace => if ks.len() > 0 {
            ks.drop_last()
        } else {
            ks
        },
        Command::Insert(c) => ks.push(c),
        _ => ks,
    }
}

/// Where a digit command moves the cursor: digit `n` selects candidate
/// `n - 1`, clamped into the current candidate list.
pub open spec fn digit_index(c: char, n_entries: int) -> int {
    let n = c as int - 48;
    let t = if n >= 1 {
        n - 1
    } else {
        0
    };
    if n_entries == 0 {
        0
    } else if t < n_entries {
        t
    } else {
        n_entries - 1
    }
}

/// The cursor after a command, always clamped to the current candidate list.
pub open spec fn index_after(cmd: Command, index: int, n_entries: int) -> int {
    match cmd {
        Command::Next => if index + 1 < n_entries {
            index + 1
        } else {
            index
        },
        Command::Prev => if index != 0 {
            index - 1
        } else {
            index
        },
        Command::Digit(c) => digit_index(c, n_entries),
        _ => index,
    }
}

/// One engine step: what a key press does to the composition state and what
/// response it yields.
pub open spec fn spec_step(dict: Seq<Entry>, cfg: TableConfig, m: MatchView, key: u16) -> (
    MatchView,
    RespView,
) {
    let cmd = spec_command(cfg, key);
    if cmd is Escape && m.ks.len() > 0 {
        (reset_view(), RespView::Empty)
    } else {
        let ks1 = ks_after(cmd, m.ks);
        let idx1 = index_after(cmd, m.index, m.entries.len() as int);
        let entries1 = if cmd is Backspace {
            Seq::<Entry>::empty()
        } else {
            m.entries
        };
        let entries2 = if entries1.len() == 0 {
            rescan(dict, ks1)
        } else {
            rescan(entries1, ks1)
        };
        if 0 <= idx1 < entries2.len() {
            let ch = entries2[idx1].character;
            if ks1.len() > 0 {
                if cmd is Commit {
                    (reset_view(), RespView::Commit(seq![ch]))
                } else {
                    (
                        MatchView { ks: ks1, index: idx1, entries: entries2, prev: m.prev },
                        RespView::Suggest(seq![ch]),
                    )
                }
            } else {
                (reset_view(), RespView::Undefined)
            }
        } else {
            (reset_view(), RespView::Empty)
        }
    }
}

impl TableState {
    /// At rest the state is either fully reset, or mid-composition with the
    /// candidate list exactly equal to a full rescan of the dictionary and
    /// the cursor inside it.
    pub open spec fn wf(self) -> bool {
        &&& self.previous_character@.len() == 0
        &&& if self.key_sequence@.len() == 0 {
            self.relative_entries@.len() == 0 && self.index == 0
        } else {
            &&& self.relative_entries@ == rescan(self.table.entries@, self.key_sequence@)
            &&& self.relative_entries@.len() > 0
            &&& (self.index as int) < self.relative_entries@.len()
        }
    }
}

/// Relies on `String::push`: appends the given character to the end.
#[verifier::external_body]
fn push_char(s: &mut String, c: char)
    ensures
        final(s)@ == old(s)@.push(c),
{
    s.push(c);
}

/// Relies on `String::pop`: removes the last character; `None` and no change
/// when the string is empty.
#[verifier::external_body]
fn pop_char(s: &mut String)
    ensures
        final(s)@ == if old(s)@.len() > 0 {
            old(s)@.drop_last()
        } else {
            old(s)@
        },
{
    s.pop();
}

/// Relies on `String::from` for `char`: allocates the one-character string.
#[verifier::external_body]
fn char_to_string(c: char) -> (r: String)
    ensures
        r@ == seq![c],
{
    String::from(c)
}

/// A copy of an entry, equal to the original.
fn clone_entry(e: &Entry) -> (r: Entry)
    ensures
        r == *e,
{
    Entry { character: e.character, sequence: e.sequence.clone() }
}

/// Whether the characters of `prefix` are a prefix of the characters of `s`.
fn str_is_prefix(prefix: &str, s: &str) -> (r: bool)
    ensures
        r == prefix@.is_prefix_of(s@),
{
    let plen = prefix.unicode_len();
    let slen = s.unicode_len();
    if plen > slen {
        return false;
    }
    let mut i: usize = 0;
    while i < plen
        invariant
            i <= plen,
            plen == prefix@.len(),
            slen == s@.len(),
            plen <= slen,
            forall|j: int| 0 <= j < i ==> prefix@[j] == s@[j],
        decreases plen - i,
    {
        if prefix.get_char(i) != s.get_char(i) {
            proof {
                assert(prefix@[i as int] != s@.subrange(0, plen as int)[i as int]);
            }
            return false;
        }
        i += 1;
    }
    proof {
        assert(prefix@ =~= s@.subrange(0, plen as int));
    }
    true
}

/// The candidates for `ks` among `entries`, in order: an executable rescan.
fn matching_entries(entries: &Vec<Entry>, ks: &String) -> (out: Vec<Entry>)
    ensures
        out@ == rescan(entries@, ks@),
{
    let mut out: Vec<Entry> = Vec::new();
    let n = entries.len();
    let mut i: usize = 0;
    proof {
        reveal(Seq::filter);
        assert(out@ =~= rescan(entries@.take(0), ks@));
    }
    while i < n
        invariant
            i <= n,
            n == entries@.len(),
            out@ == rescan(entries@.take(i as int), ks@),
        decreases n - i,
    {
        let e = &entries[i];
        proof {
            broadcast use Seq::lemma_filter_push;

            assert(entries@.take(i as int).push(entries@[i as int]) =~= entries@.take(
                i as int + 1,
            ));
        }
        if str_is_prefix(ks.as_str(), e.sequence.as_str()) {
            out.push(clone_entry(e));
        }
        i += 1;
    }
    proof {
        assert(entries@.take(n as int) =~= entries@);
    }
    out
}

/// Narrowing with a longer key sequence commutes with rescanning: filtering
/// the candidates of a prefix `a` by a longer sequence `b` gives exactly the
/// candidates of `b` in the original dictionary. This is why incremental
/// filtering is equivalent to a full rescan after every step.
pub proof fn lemma_rescan_narrow(dict: Seq<Entry>, a: Seq<char>, b: Seq<char>)
    requires
        a.is_prefix_of(b),
    ensures
        rescan(rescan(dict, a), b) == rescan(dict, b),
    decreases dict.len(),
{
    reveal(Seq::filter);
    broadcast use Seq::lemma_filter_push;

    if dict.len() == 0 {
        assert(rescan(rescan(dict, a), b) =~= rescan(dict, b));
    } else {
        let d0 = dict.drop_last();
        let x = dict.last();
        lemma_rescan_narrow(d0, a, b);
        if entry_matches(x, b) && !entry_matches(x, a) {
            // impossible: a prefix of b, b prefix of x.sequence
            assert forall|j: int| 0 <= j < a.len() implies a[j] == x.sequence@[j] by {
                assert(a[j] == b.subrange(0, a.len() as int)[j]);
                assert(b[j] == x.sequence@.subrange(0, b.len() as int)[j]);
            }
            assert(a =~= x.sequence@.subrange(0, a.len() as int));
        }
        assert(rescan(dict, a) == if entry_matches(x, a) {
            rescan(d0, a).push(x)
        } else {
            rescan(d0, a)
        });
        if entry_matches(x, a) {
            assert(rescan(rescan(d0, a).push(x), b) == if entry_matches(x, b) {
                rescan(rescan(d0, a), b).push(x)
            } else {
                rescan(rescan(d0, a), b)
            });
        }
        assert(rescan(dict, b) == if entry_matches(x, b) {
            rescan(d0, b).push(x)
        } else {
            rescan(d0, b)
        });
    }
}

impl TableConfig {
    /// The first plain character mapped to this keycode, if any.
    pub fn keycode_to_char(&self, keycode: &u16) -> (r: Option<&char>)
        ensures
            match r {
                Some(c) => key_char(*self, *keycode) == Some(*c),
                None => key_char(*self, *keycode) is None,
            },
    {
        proof {
            broadcast use vstd::std_specs::hash::group_hash_axioms;

        }
        match self.keys.get(keycode) {
            Some(v) => if v.len() > 0 {
                Some(&v[0])
            } else {
                None
            },
            None => None,
        }
    }

    /// The first command token mapped to this keycode, if any.
    pub fn keycode_to_spec(&self, keycode: &u16) -> (r: Option<&str>)
        ensures
            match r {
                Some(t) => first_spec_token(*self, *keycode) == Some(t@),
                None => first_spec_token(*self, *keycode) is None,
            },
    {
        proof {
            broadcast use vstd::std_specs::hash::group_hash_axioms;

        }
        match self.specs.get(keycode) {
            Some(v) => if v.len() > 0 {
                Some(v[0].as_str())
            } else {
                None
            },
            None => None,
        }
    }
}

/// Resolve a keycode to the command or insertion it stands for.
fn resolve_command(cfg: &TableConfig, key_code: u16) -> (cmd: Command)
    ensures
        cmd == spec_command(*cfg, key_code),
{
    let first: Option<char> = match cfg.keycode_to_spec(&key_code) {
        Some(tok) => if !tok.is_empty() {
            Some(tok.get_char(0))
        } else {
            None
        },
        None => None,
    };
    match first {
        Some(c) => {
            let cu = c as u32;
            if c == 'C' {
                Command::Commit
            } else if c == 'N' {
                Command::Next
            } else if c == 'P' {
                Command::Prev
            } else if c == 'E' {
                Command::Escape
            } else if c == 'B' {
                Command::Backspace
            } else if 48 <= cu && cu <= 57 {
                Command::Digit(c)
            } else {
                insert_or_pass_exec(cfg, key_code)
            }
        },
        None => insert_or_pass_exec(cfg, key_code),
    }
}

/// The fallback of [`resolve_command`]: a mapped character or nothing.
fn insert_or_pass_exec(cfg: &TableConfig, key_code: u16) -> (cmd: Command)
    ensures
        cmd == insert_or_pass(*cfg, key_code),
{
    match cfg.keycode_to_char(&key_code) {
        Some(c) => Command::Insert(*c),
        None => Command::Pass,
    }
}

} // verus!

verus! {

impl TableState {
    /// A fresh engine state over the given dictionary and key mapping.
    pub fn new(table: Table, config: TableConfig) -> (s: Self)
        ensures
            s@ == reset_view(),
            s.table == table,
            s.config == config,
            s.wf(),
    {
        let s = TableState {
            table,
            config,
            key_sequence: String::new(),
            index: 0,
            relative_entries: Vec::new(),
            previous_character: String::new(),
        };
        proof {
            assert(s@ =~= reset_view());
        }
        s
    }

    /// Clear the composition: empty key sequence, cursor at zero, no
    /// candidates. The dictionary and key mapping are untouched.
    pub fn reset(&mut self)
        ensures
            final(self)@ == reset_view(),
            final(self).table == old(self).table,
            final(self).config == old(self).config,
            final(self).wf(),
    {
        self.index = 0;
        self.relative_entries = Vec::new();
        self.key_sequence = String::new();
        self.previous_character = String::new();
        proof {
            assert(self@ =~= reset_view());
        }
    }

    /// Feed one key press to the engine. The state moves and the response is
    /// produced exactly as [`spec_step`] says.
    pub fn on_key_press(&mut self, key_code: u16) -> (resp: AnkraResponse)
        requires
            old(self).wf(),
        ensures
            final(self).wf(),
            final(self).table == old(self).table,
            final(self).config == old(self).config,
            final(self)@ == spec_step(
                old(self).table.entries@,
                old(self).config,
                old(self)@,
                key_code,
            ).0,
            resp@ == spec_step(old(self).table.entries@, old(self).config, old(self)@, key_code).1,
    {
        let ghost pre = *old(self);
        let ghost dict = pre.table.entries@;
        let ghost step = spec_step(dict, pre.config, pre@, key_code);
        let mut commit: bool = false;
        let cmd = resolve_command(&self.config, key_code);
        let ghost cmd_g = spec_command(pre.config, key_code);
        match &cmd {
            Command::Commit => {
                commit = true;
            },
            Command::Next => {
                let len = self.relative_entries.len();
                proof {
                    if pre.key_sequence@.len() == 0 {
                        assert(pre.index == 0);
                    }
                }
                if len > 0 && self.index < len - 1 {
                    self.index = self.index + 1;
                }
            },
            Command::Prev => {
                if self.index != 0 {
                    self.index = self.index - 1;
                }
            },
            Command::Escape => {
                if !self.key_sequence.as_str().is_empty() {
                    self.reset();
                    return AnkraResponse::Empty;
                }
            },
            Command::Backspace => {
                pop_char(&mut self.key_sequence);
                self.relative_entries.clear();
            },
            Command::Digit(d) => {
                proof {
                    assert(48 <= *d as u32 && *d as u32 <= 57);
                }
                let n = (*d as u32) - 48;
                let target: usize = if n >= 1 {
                    (n - 1) as usize
                } else {
                    0
                };
                let len = self.relative_entries.len();
                self.index = if len == 0 {
                    0
                } else if target < len {
                    target
                } else {
                    len - 1
                };
            },
            Command::Insert(c) => {
                push_char(&mut self.key_sequence, *c);
            },
            Command::Pass => {},
        }
        let ghost ks1 = ks_after(cmd_g, pre.key_sequence@);
        let ghost idx1 = index_after(cmd_g, pre.index as int, pre.relative_entries@.len() as int);
        let ghost entries1 = if cmd_g is Backspace {
            Seq::<Entry>::empty()
        } else {
            pre.relative_entries@
        };
        let ghost entries2 = if entries1.len() == 0 {
            rescan(dict, ks1)
        } else {
            rescan(entries1, ks1)
        };
        proof {
            assert(commit == (cmd_g is Commit));
            assert(self.key_sequence@ == ks1);
            assert(self.index as int == idx1);
            assert(self.relative_entries@ == entries1);
            assert(idx1 >= 0);
        }
        if self.relative_entries.len() == 0 {
            let scanned = matching_entries(&self.table.entries, &self.key_sequence);
            self.relative_entries = scanned;
        } else {
            let narrowed = matching_entries(&self.relative_entries, &self.key_sequence);
            self.relative_entries = narrowed;
            proof {
                // the narrowed list still equals a full rescan
                assert(pre.relative_entries@.len() > 0);
                assert(pre.key_sequence@.len() > 0);
                assert(pre.relative_entries@ == rescan(dict, pre.key_sequence@));
                if cmd_g is Insert {
                    assert(pre.key_sequence@ =~= ks1.subrange(
                        0,
                        pre.key_sequence@.len() as int,
                    ));
                } else {
                    assert(ks1 == pre.key_sequence@);
                    assert(pre.key_sequence@ =~= ks1.subrange(
                        0,
                        pre.key_sequence@.len() as int,
                    ));
                }
                assert(pre.key_sequence@.is_prefix_of(ks1));
                lemma_rescan_narrow(dict, pre.key_sequence@, ks1);
            }
        }
        proof {
            assert(self.relative_entries@ == entries2);
            assert(self.relative_entries@ == rescan(dict, ks1));
        }
        if self.index < self.relative_entries.len() {
            let value = self.relative_entries[self.index].character;
            proof {
                assert(value == entries2[idx1].character);
            }
            if !self.key_sequence.as_str().is_empty() {
                if commit {
                    self.reset();
                    let resp = AnkraResponse::Commit(char_to_string(value));
                    proof {
                        assert(resp@ =~= step.1);
                    }
                    return resp;
                } else {
                    let resp = AnkraResponse::Suggest(char_to_string(value));
                    proof {
                        assert(self@ =~= step.0);
                        assert(resp@ =~= step.1);
                    }
                    return resp;
                }
            }
            self.reset();
            return AnkraResponse::Undefined;
        }
        self.reset();
        AnkraResponse::Empty
    }

    /// A key release never means anything to the engine.
    pub fn on_key_release(&mut self, key_code: u16) -> (resp: AnkraResponse)
        ensures
            *final(self) == *old(self),
            resp is Undefined,
    {
        AnkraResponse::Undefined
    }
}

} // verus!

verus! {

/// The cursor never leaves the candidate list: whatever the command, from a
/// cursor inside the list (or at zero when the list is empty) it stays
/// inside the list (or at zero), even at the boundaries.
pub proof fn lemma_cursor_stays_in_bounds(cmd: Command, index: int, n_entries: int)
    requires
        0 <= index,
        0 <= n_entries,
        n_entries == 0 ==> index == 0,
        n_entries > 0 ==> index < n_entries,
    ensures
        0 <= index_after(cmd, index, n_entries),
        n_entries == 0 ==> index_after(cmd, index, n_entries) == 0,
        n_entries > 0 ==> index_after(cmd, index, n_entries) < n_entries,
{
    match cmd {
        Command::Next => {},
        Command::Prev => {},
        Command::Digit(c) => {
            assert(0 <= digit_index(c, n_entries));
            assert(n_entries > 0 ==> digit_index(c, n_entries) < n_entries);
        },
        _ => {},
    }
}

/// Backspace on an empty key sequence changes nothing: the sequence cannot
/// underflow.
pub proof fn lemma_backspace_empty_noop(ks: Seq<char>)
    requires
        ks.len() == 0,
    ensures
        ks_after(Command::Backspace, ks) == ks,
{
}

/// Immediately after a `Commit` response the engine state equals the state
/// immediately after `reset`.
pub proof fn lemma_commit_resets(dict: Seq<Entry>, cfg: TableConfig, m: MatchView, key: u16)
    ensures
        spec_step(dict, cfg, m, key).1 is Commit ==> spec_step(dict, cfg, m, key).0
            == reset_view(),
{
}

} // verus!
