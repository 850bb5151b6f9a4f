//! The variable environment: a stack of frames under one local frame.

use vstd::prelude::*;
use crate::error::DigError;
use crate::error::Failure;
use crate::value::entries_view;
use crate::value::Json;
use crate::value::JsonValue;

verus! {

/// Mathematical model of a frame: its entries in order.
pub type Frame = Seq<(Seq<char>, Json)>;

/// Index of the first entry with this key at or after `from`; the number of
/// entries if there is none.
pub open spec fn key_index<V>(frame: Seq<(Seq<char>, V)>, key: Seq<char>, from: int) -> int
    decreases frame.len() - from,
{
    if 0 <= from < frame.len() && frame[from].0 != key {
        key_index(frame, key, from + 1)
    } else {
        from
    }
}

/// The value that a frame binds to a key, if any.
pub open spec fn frame_get<V>(frame: Seq<(Seq<char>, V)>, key: Seq<char>) -> Option<V> {
    let i = key_index(frame, key, 0);
    if 0 <= i < frame.len() {
        Some(frame[i].1)
    } else {
        None
    }
}

/// The frame after binding `key` to `value`: an entry with this key is
/// overwritten in place, otherwise a new entry is added at the end.
pub open spec fn frame_insert<V>(frame: Seq<(Seq<char>, V)>, key: Seq<char>, value: V) -> Seq<
    (Seq<char>, V),
> {
    let i = key_index(frame, key, 0);
    if 0 <= i < frame.len() {
        frame.update(i, (key, value))
    } else {
        frame.push((key, value))
    }
}

/// The value that the newest of the frames holding `key` binds to it.
pub open spec fn parents_get(parents: Seq<Frame>, key: Seq<char>) -> Option<Json>
    decreases parents.len(),
{
    if parents.len() == 0 {
        None
    } else {
        match frame_get(parents.last(), key) {
            Some(v) => Some(v),
            None => parents_get(parents.drop_last(), key),
        }
    }
}

/// Mathematical model of a [`VariableSet`].
pub struct Vars {
    /// The frames below the local one, oldest first.
    pub parents: Seq<Frame>,
    /// The local frame.
    pub local: Frame,
}

impl Vars {
    /// The value of `key`: that of the local frame if it holds the key, else
    /// that of the newest parent frame that does.
    pub open spec fn get(self, key: Seq<char>) -> Option<Json> {
        match frame_get(self.local, key) {
            Some(v) => Some(v),
            None => parents_get(self.parents, key),
        }
    }

    /// The environment after binding `key` in the local frame.
    pub open spec fn insert(self, key: Seq<char>, value: Json) -> Vars {
        Vars { parents: self.parents, local: frame_insert(self.local, key, value) }
    }

    /// The environment stacked on this one, with an empty local frame or a
    /// copy of this one's.
    pub open spec fn stack(self, copy_locals: bool) -> Vars {
        Vars {
            parents: self.parents.push(self.local),
            local: if copy_locals {
                self.local
            } else {
                Seq::empty()
            },
        }
    }
}

/// Whether a frame holds an entry with this key.
pub open spec fn frame_has<V>(frame: Seq<(Seq<char>, V)>, key: Seq<char>) -> bool {
    exists|i: int| 0 <= i < frame.len() && #[trigger] frame[i].0 == key
}

/// One frame of variables: keys with their values, in insertion order.
#[derive(Debug, PartialEq)]
pub struct VariableMap {
    pub entries: Vec<(String, JsonValue)>,
}

impl View for VariableMap {
    type V = Frame;

    open spec fn view(&self) -> Frame {
        entries_view(self.entries@)
    }
}

/// The models of a list of frames.
pub open spec fn frames_view(frames: Seq<VariableMap>) -> Seq<Frame> {
    Seq::new(frames.len(), |i: int| frames[i]@)
}

impl VariableMap {
    pub fn new() -> (r: VariableMap)
        ensures
            r@ == Seq::<(Seq<char>, Json)>::empty(),
    {
        let r = VariableMap { entries: Vec::new() };
        assert(r@ =~= Seq::<(Seq<char>, Json)>::empty());
        r
    }

    pub fn len(&self) -> (r: usize)
        ensures
            r == self@.len(),
    {
        self.entries.len()
    }

    pub fn is_empty(&self) -> (r: bool)
        ensures
            r == (self@.len() == 0),
    {
        self.entries.len() == 0
    }

    /// Index of the first entry with this key, or the number of entries.
    fn position(&self, key: &String) -> (r: usize)
        ensures
            r == key_index(self@, key@, 0),
            r <= self.entries.len(),
            r < self.entries.len() ==> self.entries[r as int].0@ == key@,
    {
        let mut i: usize = 0;
        while i < self.entries.len() && self.entries[i].0 != *key
            invariant
                i <= self.entries.len(),
                key_index(self@, key@, 0) == key_index(self@, key@, i as int),
            decreases self.entries.len() - i,
        {
            i += 1;
        }
        i
    }

    /// The value bound to `key`, if any.
    pub fn get(&self, key: &str) -> (r: Option<&JsonValue>)
        ensures
            match r {
                Some(v) => frame_get(self@, key@) == Some(v@),
                None => frame_get(self@, key@) is None,
            },
    {
        let owned = key.to_owned();
        let i = self.position(&owned);
        if i < self.entries.len() {
            Some(&self.entries[i].1)
        } else {
            None
        }
    }

    /// Binds `key` to `value`: overwrites an entry with this key, else adds one.
    pub fn insert(&mut self, key: String, value: JsonValue)
        ensures
            final(self)@ == frame_insert(old(self)@, key@, value@),
    {
        let i = self.position(&key);
        if i < self.entries.len() {
            self.entries[i] = (key, value);
        } else {
            self.entries.push((key, value));
        }
        assert(self@ =~= frame_insert(old(self)@, key@, value@));
    }
}

impl Clone for VariableMap {
    fn clone(&self) -> (r: VariableMap)
        ensures
            r@ == self@,
    {
        let mut out: Vec<(String, JsonValue)> = Vec::new();
        let mut i: usize = 0;
        while i < self.entries.len()
            invariant
                i <= self.entries.len(),
                out.len() == i,
                forall|j: int|
                    0 <= j < i ==> out[j].0@ == self.entries[j].0@ && out[j].1@
                        == self.entries[j].1@,
            decreases self.entries.len() - i,
        {
            out.push((self.entries[i].0.clone(), self.entries[i].1.clone()));
            i += 1;
        }
        let r = VariableMap { entries: out };
        assert(r@ =~= self@);
        r
    }
}

/// How the local frame of a stacked environment starts out.
#[derive(Clone, Copy, Debug, PartialEq, Eq)]
pub enum StackMode {
    EmptyLocals,
    CopyLocals,
}

/// The variable environment: parent frames, oldest first, under a local frame.
#[derive(Debug, PartialEq)]
pub struct VariableSet {
    pub stacked_vars: Vec<VariableMap>,
    pub local_vars: VariableMap,
}

impl View for VariableSet {
    type V = Vars;

    open spec fn view(&self) -> Vars {
        Vars { parents: frames_view(self.stacked_vars@), local: self.local_vars@ }
    }
}

impl Clone for VariableSet {
    fn clone(&self) -> (r: VariableSet)
        ensures
            r@ == self@,
    {
        let mut frames: Vec<VariableMap> = Vec::new();
        let mut i: usize = 0;
        while i < self.stacked_vars.len()
            invariant
                i <= self.stacked_vars.len(),
                frames.len() == i,
                forall|j: int| 0 <= j < i ==> frames[j]@ == self.stacked_vars[j]@,
            decreases self.stacked_vars.len() - i,
        {
            frames.push(self.stacked_vars[i].clone());
            i += 1;
        }
        let r = VariableSet { stacked_vars: frames, local_vars: self.local_vars.clone() };
        assert(r@.parents =~= self@.parents);
        r
    }
}

impl VariableSet {
    /// The environment with no parent frame and an empty local frame.
    pub fn new() -> (r: VariableSet)
        ensures
            r@ == (Vars { parents: Seq::empty(), local: Seq::empty() }),
    {
        let r = VariableSet { stacked_vars: Vec::new(), local_vars: VariableMap::new() };
        assert(r@.parents =~= Seq::<Frame>::empty());
        r
    }

    /// The value of `key`: the local frame is searched first, then the
    /// parent frames from the newest to the oldest.
    pub fn get(&self, key: &str) -> (r: Result<&JsonValue, DigError>)
        ensures
            match r {
                Ok(v) => self@.get(key@) == Some(v@),
                Err(e) => self@.get(key@) is None && e@ == Failure::UnknownKey(key@),
            },
    {
        match self.get_from_locals(key) {
            Some(value) => {
                return Ok(value);
            },
            None => {},
        }
        let mut i: usize = self.stacked_vars.len();
        assert(frames_view(self.stacked_vars@).subrange(0, i as int) =~= frames_view(
            self.stacked_vars@,
        ));
        while i > 0
            invariant
                i <= self.stacked_vars.len(),
                frame_get(self@.local, key@) is None,
                parents_get(self@.parents, key@) == parents_get(
                    self@.parents.subrange(0, i as int),
                    key@,
                ),
            decreases i,
        {
            let ghost prefix = self@.parents.subrange(0, i as int);
            assert(prefix.drop_last() =~= self@.parents.subrange(0, i - 1));
            assert(prefix.last() == self.stacked_vars[i - 1]@);
            match self.stacked_vars[i - 1].get(key) {
                Some(value) => {
                    return Ok(value);
                },
                None => {},
            }
            i -= 1;
        }
        Err(DigError::UnknownKey(key.to_owned()))
    }

    /// The value that the local frame binds to `key`.
    pub fn get_from_locals(&self, key: &str) -> (r: Option<&JsonValue>)
        ensures
            match r {
                Some(v) => frame_get(self@.local, key@) == Some(v@),
                None => frame_get(self@.local, key@) is None,
            },
    {
        self.local_vars.get(key)
    }

    /// The value that the newest parent frame binds to `key`.
    pub fn get_from_parent(&self, key: &str) -> (r: Option<&JsonValue>)
        ensures
            match r {
                Some(v) => self@.parents.len() > 0 && frame_get(self@.parents.last(), key@)
                    == Some(v@),
                None => self@.parents.len() == 0 || frame_get(self@.parents.last(), key@) is None,
            },
    {
        let n = self.stacked_vars.len();
        if n == 0 {
            None
        } else {
            self.stacked_vars[n - 1].get(key)
        }
    }

    /// The newest parent frame.
    pub fn parent(&self) -> (r: Option<&VariableMap>)
        ensures
            match r {
                Some(m) => self@.parents.len() > 0 && m@ == self@.parents.last(),
                None => self@.parents.len() == 0,
            },
    {
        let n = self.stacked_vars.len();
        if n == 0 {
            None
        } else {
            Some(&self.stacked_vars[n - 1])
        }
    }

    /// A new environment on top of this one: its parents are this one's
    /// parents and then this one's local frame; its local frame is empty or
    /// a copy of this one's.
    pub fn stack(&self, mode: StackMode) -> (r: VariableSet)
        ensures
            r@ == self@.stack(mode == StackMode::CopyLocals),
    {
        let local_vars = match mode {
            StackMode::EmptyLocals => VariableMap::new(),
            StackMode::CopyLocals => self.local_vars.clone(),
        };
        let copy = self.clone();
        let mut stacked_vars = copy.stacked_vars;
        stacked_vars.push(copy.local_vars);
        let r = VariableSet { stacked_vars, local_vars };
        assert(r@.parents =~= self@.parents.push(self@.local));
        r
    }

    /// Binds `key` to `value` in the local frame.
    pub fn insert(&mut self, key: String, value: JsonValue)
        ensures
            final(self)@ == old(self)@.insert(key@, value@),
    {
        self.local_vars.insert(key, value);
    }
}

} // verus!
