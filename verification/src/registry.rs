//! The registry of modes: at most one mode per key, looked up by key, kept in
//! the order in which the keys first came.

use crate::modes::{create_builtin_modes, mode_views, Mode, ModeView};
use crate::text::{same_text, to_chars};
use vstd::prelude::*;

verus! {

/// Index of the first mode with the key, or -1.
pub open spec fn index_of(modes: Seq<ModeView>, key: Seq<char>) -> int
    decreases modes.len(),
{
    if modes.len() == 0 {
        -1
    } else if index_of(modes.drop_last(), key) >= 0 {
        index_of(modes.drop_last(), key)
    } else if modes.last().key == key {
        modes.len() - 1
    } else {
        -1
    }
}

/// The mode with the key, if there is one.
pub open spec fn lookup(modes: Seq<ModeView>, key: Seq<char>) -> Option<ModeView> {
    if index_of(modes, key) >= 0 {
        Some(modes[index_of(modes, key)])
    } else {
        None
    }
}

/// No two modes have the same key.
pub open spec fn distinct_keys(modes: Seq<ModeView>) -> bool {
    forall|i: int, j: int|
        0 <= i < j < modes.len() ==> (#[trigger] modes[i]).key != (#[trigger] modes[j]).key
}

/// The modes after `mode` was put in: it takes the place of the mode with its
/// key, or comes last if there is none.
pub open spec fn with_mode(modes: Seq<ModeView>, mode: ModeView) -> Seq<ModeView> {
    if index_of(modes, mode.key) >= 0 {
        modes.update(index_of(modes, mode.key), mode)
    } else {
        modes.push(mode)
    }
}

/// The modes after each mode of `more` was put in, in order.
pub open spec fn with_modes(modes: Seq<ModeView>, more: Seq<ModeView>) -> Seq<ModeView>
    decreases more.len(),
{
    if more.len() == 0 {
        modes
    } else {
        with_mode(with_modes(modes, more.drop_last()), more.last())
    }
}

/// `index_of` is within bounds, finds the key, and finds its first place.
pub proof fn lemma_index_of(modes: Seq<ModeView>, key: Seq<char>)
    ensures
        -1 <= index_of(modes, key) < modes.len(),
        index_of(modes, key) >= 0 ==> modes[index_of(modes, key)].key == key,
        forall|i: int|
            0 <= i < modes.len() && (i < index_of(modes, key) || index_of(modes, key) < 0)
                ==> (#[trigger] modes[i]).key != key,
    decreases modes.len(),
{
    if modes.len() > 0 {
        let front = modes.drop_last();
        lemma_index_of(front, key);
        assert forall|i: int|
            0 <= i < modes.len() && (i < index_of(modes, key) || index_of(modes, key)
                < 0) implies (#[trigger] modes[i]).key != key by {
            if i < front.len() {
                assert(front[i] == modes[i]);
            }
        }
    }
}

/// Putting a mode in keeps the keys distinct, makes its key give the mode,
/// and leaves what every other key gives.
pub proof fn lemma_with_mode(modes: Seq<ModeView>, mode: ModeView)
    requires
        distinct_keys(modes),
    ensures
        distinct_keys(with_mode(modes, mode)),
        lookup(with_mode(modes, mode), mode.key) == Some(mode),
        forall|key: Seq<char>|
            key != mode.key ==> lookup(with_mode(modes, mode), key) == lookup(modes, key),
{
    let after = with_mode(modes, mode);
    let at = index_of(modes, mode.key);
    lemma_index_of(modes, mode.key);
    assert forall|i: int, j: int| 0 <= i < j < after.len() implies (#[trigger] after[i]).key != (
    #[trigger] after[j]).key by {
        if j < modes.len() {
            assert(modes[i].key != modes[j].key);
        }
    }
    assert forall|key: Seq<char>| true implies lookup(after, key) == (if key == mode.key {
        Some(mode)
    } else {
        lookup(modes, key)
    }) by {
        lemma_index_of(modes, key);
        lemma_index_of(after, key);
        let before = index_of(modes, key);
        let found = index_of(after, key);
        // the place of the new mode, and the one place where the two differ
        let place = if at >= 0 {
            at
        } else {
            modes.len() as int
        };
        assert(after[place] == mode);
        assert forall|i: int| 0 <= i < modes.len() && i != place implies after[i] == modes[i] by {}
        if key == mode.key {
            if found != place {
                // an earlier mode with the key would be one of the old modes
                assert(after[found] == modes[found]);
            }
        } else {
            if before >= 0 {
                assert(modes[before].key == key);
                assert(after[before] == modes[before]);
            }
            if found >= 0 {
                assert(after[found].key == key);
                assert(after[found] == modes[found]);
            }
        }
    }
}

/// A registry of modes.
#[derive(Debug)]
pub struct ModeRegistry {
    modes: Vec<Mode>,
}

impl View for ModeRegistry {
    type V = Seq<ModeView>;

    closed spec fn view(&self) -> Seq<ModeView> {
        mode_views(self.modes@)
    }
}

impl ModeRegistry {
    /// The registry holds at most one mode per key.
    pub open spec fn well_formed(&self) -> bool {
        distinct_keys(self@)
    }

    /// A registry without modes.
    pub fn new() -> (registry: Self)
        ensures
            registry@ == Seq::<ModeView>::empty(),
            registry.well_formed(),
    {
        let registry = ModeRegistry { modes: Vec::new() };
        assert(registry@ =~= Seq::<ModeView>::empty());
        registry
    }

    /// Number of modes.
    pub fn len(&self) -> (n: usize)
        ensures
            n == self@.len(),
    {
        self.modes.len()
    }

    fn position(&self, key: &str) -> (at: Option<usize>)
        ensures
            match at {
                Some(i) => i == index_of(self@, key@) && i < self.modes@.len(),
                None => index_of(self@, key@) == -1,
            },
    {
        let wanted = to_chars(key);
        let mut i: usize = 0;
        while i < self.modes.len()
            invariant
                i <= self.modes.len(),
                wanted@ == key@,
                forall|k: int| 0 <= k < i ==> (#[trigger] self@[k]).key != key@,
            decreases self.modes.len() - i,
        {
            if same_text(&to_chars(self.modes[i].key.as_str()), &wanted) {
                proof {
                    lemma_index_of(self@, key@);
                    assert(self@[i as int].key == key@);
                }
                return Some(i);
            }
            i = i + 1;
        }
        proof {
            lemma_index_of(self@, key@);
        }
        None
    }

    /// Whether a mode has the key.
    pub fn contains_key(&self, key: &str) -> (found: bool)
        ensures
            found == lookup(self@, key@).is_some(),
    {
        self.position(key).is_some()
    }

    /// The mode with the key.
    pub fn get(&self, key: &str) -> (mode: Option<&Mode>)
        ensures
            match mode {
                Some(m) => lookup(self@, key@) == Some(m@),
                None => lookup(self@, key@).is_none(),
            },
    {
        match self.position(key) {
            Some(i) => {
                assert(self@[i as int] == self.modes@[i as int]@);
                Some(&self.modes[i])
            },
            None => None,
        }
    }

    /// Puts a mode in: it takes the place of the mode with its key, or comes
    /// last if no mode has its key.
    pub fn insert(&mut self, mode: Mode)
        requires
            old(self).well_formed(),
        ensures
            final(self)@ == with_mode(old(self)@, mode@),
            final(self).well_formed(),
    {
        proof {
            lemma_with_mode(self@, mode@);
        }
        match self.position(mode.key.as_str()) {
            Some(i) => {
                self.modes.set(i, mode);
            },
            None => {
                self.modes.push(mode);
            },
        }
        assert(self@ =~= with_mode(old(self)@, mode@));
    }

    /// The modes, in the order in which their keys first came.
    pub fn values(&self) -> (modes: &Vec<Mode>)
        ensures
            mode_views(modes@) == self@,
    {
        &self.modes
    }

    /// Puts each mode of `modes` in, in order.
    pub fn extend(&mut self, modes: Vec<Mode>)
        requires
            old(self).well_formed(),
        ensures
            final(self)@ == with_modes(old(self)@, mode_views(modes@)),
            final(self).well_formed(),
    {
        let ghost all = mode_views(modes@);
        let n = modes.len();
        let mut i: usize = 0;
        while i < n
            invariant
                i <= n == modes.len(),
                all == mode_views(modes@),
                self.well_formed(),
                self@ == with_modes(old(self)@, all.take(i as int)),
            decreases n - i,
        {
            let mode = modes[i].clone();
            proof {
                assert(all.take(i + 1).drop_last() == all.take(i as int));
                assert(all.take(i + 1).last() == mode@);
            }
            self.insert(mode);
            i = i + 1;
        }
        assert(all.take(n as int) == all);
    }
}

/// The registry of a session: the built-in modes, then the custom modes, a
/// custom mode taking the place of the mode with its key.
pub fn merge_modes(custom: Vec<Mode>) -> (registry: ModeRegistry)
    ensures
        registry@ == with_modes(
            with_modes(Seq::empty(), crate::modes::builtin_modes()),
            mode_views(custom@),
        ),
        registry.well_formed(),
{
    let mut registry = ModeRegistry::new();
    registry.extend(create_builtin_modes());
    registry.extend(custom);
    registry
}

} // verus!
