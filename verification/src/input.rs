//! Edge-triggered key-state tracking.
//!
//! The controller keeps the set of keys considered active now and the set
//! that was active when the buffers were last rotated. `update` rotates the
//! buffers once per tick, after all queries for that tick; "pressed" and
//! "released" are the two edges between the buffers.

use vstd::prelude::*;

verus! {

/// The logical keys the simulation reacts to.
#[derive(Clone, Copy, PartialEq, Eq, Structural, Debug)]
pub enum Key {
    /// Pan up.
    W,
    /// Pan left.
    A,
    /// Pan down.
    S,
    /// Pan right.
    D,
    /// Rotate counter-clockwise.
    Left,
    /// Rotate clockwise.
    Right,
    /// Zoom in.
    Up,
    /// Zoom out.
    Down,
    /// Toggle pause.
    Space,
    /// Toggle wireframe.
    Q,
    /// Cycle texture.
    E,
}

/// Membership in a pushed sequence is membership in the sequence before
/// the push, or equality with the pushed element.
proof fn lemma_push_contains(s: Seq<Key>, e: Key, k: Key)
    ensures
        s.push(e).contains(k) <==> (s.contains(k) || k == e),
{
    if s.contains(k) {
        let j = choose|j: int| 0 <= j < s.len() && s[j] == k;
        assert(s.push(e)[j] == k);
    }
    if k == e {
        assert(s.push(e)[s.len() as int] == k);
    }
    if s.push(e).contains(k) {
        let j = choose|j: int| 0 <= j < s.push(e).len() && s.push(e)[j] == k;
        if j < s.len() {
            assert(s[j] == k);
        }
    }
}

/// Double-buffered set of active keys.
pub struct InputController {
    pub keys: Vec<Key>,
    pub keys_last: Vec<Key>,
}

fn contains_key(v: &Vec<Key>, key: Key) -> (r: bool)
    ensures
        r == v@.contains(key),
{
    let n: usize = v.len();
    let mut i: usize = 0;
    while i < n
        invariant
            n == v.len(),
            i <= n,
            forall|j: int| 0 <= j < i ==> v@[j] != key,
        decreases n - i,
    {
        if v[i] == key {
            return true;
        }
        i += 1;
    }
    false
}

fn copy_keys(v: &Vec<Key>) -> (r: Vec<Key>)
    ensures
        r@ == v@,
{
    let n: usize = v.len();
    let mut out: Vec<Key> = Vec::new();
    let mut i: usize = 0;
    while i < n
        invariant
            n == v.len(),
            i <= n,
            out@ == v@.subrange(0, i as int),
        decreases n - i,
    {
        out.push(v[i]);
        proof {
            assert(out@ =~= v@.subrange(0, i + 1 as int));
        }
        i += 1;
    }
    proof {
        assert(out@ =~= v@);
    }
    out
}

impl InputController {
    /// The key is in the "current" buffer.
    pub open spec fn active_now(self, k: Key) -> bool {
        self.keys@.contains(k)
    }

    /// The key was in the "current" buffer when the buffers were last rotated.
    pub open spec fn active_before(self, k: Key) -> bool {
        self.keys_last@.contains(k)
    }

    /// The key became active since the last buffer rotation.
    pub open spec fn pressed_spec(self, k: Key) -> bool {
        self.active_now(k) && !self.active_before(k)
    }

    /// The key stopped being active since the last buffer rotation.
    pub open spec fn released_spec(self, k: Key) -> bool {
        !self.active_now(k) && self.active_before(k)
    }

    pub fn new() -> (r: InputController)
        ensures
            forall|k: Key| !r.active_now(k),
            forall|k: Key| !r.active_before(k),
    {
        InputController { keys: Vec::new(), keys_last: Vec::new() }
    }

    /// Rotate the buffers: the current set becomes the previous-frame set.
    /// Immediately afterwards no key shows a pressed or released edge.
    pub fn update(&mut self)
        ensures
            forall|k: Key| final(self).active_now(k) <==> old(self).active_now(k),
            forall|k: Key| final(self).active_before(k) <==> old(self).active_now(k),
            forall|k: Key| !final(self).pressed_spec(k),
            forall|k: Key| !final(self).released_spec(k),
    {
        self.keys_last = copy_keys(&self.keys);
    }

    /// Mark a key active.
    pub fn press(&mut self, key: Key)
        ensures
            forall|k: Key|
                final(self).active_now(k) <==> (old(self).active_now(k) || k == key),
            forall|k: Key| final(self).active_before(k) <==> old(self).active_before(k),
            final(self).pressed_spec(key) <==> !old(self).active_before(key),
    {
        if !contains_key(&self.keys, key) {
            let ghost prev = self.keys@;
            self.keys.push(key);
            proof {
                assert forall|k: Key|
                    self.keys@.contains(k) <==> (prev.contains(k) || k == key) by {
                    lemma_push_contains(prev, key, k);
                }
            }
        }
    }

    /// Mark a key inactive.
    pub fn release(&mut self, key: Key)
        ensures
            forall|k: Key|
                final(self).active_now(k) <==> (old(self).active_now(k) && k != key),
            forall|k: Key| final(self).active_before(k) <==> old(self).active_before(k),
            final(self).released_spec(key) <==> old(self).active_before(key),
    {
        let n: usize = self.keys.len();
        let mut out: Vec<Key> = Vec::new();
        let mut i: usize = 0;
        while i < n
            invariant
                self.keys@ == old(self).keys@,
                self.keys_last@ == old(self).keys_last@,
                n == self.keys.len(),
                i <= n,
                forall|k: Key|
                    out@.contains(k) <==> (self.keys@.subrange(0, i as int).contains(k) && k
                        != key),
            decreases n - i,
        {
            let k: Key = self.keys[i];
            let ghost prefix = self.keys@.subrange(0, i as int);
            let ghost prev_out = out@;
            if k != key {
                out.push(k);
            }
            proof {
                assert(self.keys@.subrange(0, i + 1 as int) =~= prefix.push(self.keys@[i as int]));
                assert forall|k2: Key|
                    out@.contains(k2) <==> (self.keys@.subrange(0, i + 1 as int).contains(k2)
                        && k2 != key) by {
                    lemma_push_contains(prefix, self.keys@[i as int], k2);
                    if k != key {
                        lemma_push_contains(prev_out, k, k2);
                    }
                }
            }
            i += 1;
        }
        proof {
            assert(self.keys@.subrange(0, n as int) =~= self.keys@);
        }
        self.keys = out;
    }

    /// Is the key active right now?
    pub fn is_key_active(&self, key: Key) -> (r: bool)
        ensures
            r == self.active_now(key),
    {
        contains_key(&self.keys, key)
    }

    /// Did the key become active since the last buffer rotation?
    pub fn is_key_pressed(&self, key: Key) -> (r: bool)
        ensures
            r == self.pressed_spec(key),
    {
        contains_key(&self.keys, key) && !contains_key(&self.keys_last, key)
    }

    /// Did the key stop being active since the last buffer rotation?
    pub fn is_key_released(&self, key: Key) -> (r: bool)
        ensures
            r == self.released_spec(key),
    {
        !contains_key(&self.keys, key) && contains_key(&self.keys_last, key)
    }

    /// Is at least one of the given keys active right now?
    pub fn is_one_of_key_active(&self, keys: Vec<Key>) -> (r: bool)
        ensures
            r == exists|i: int| 0 <= i < keys@.len() && self.active_now(keys@[i]),
    {
        let n: usize = keys.len();
        let mut i: usize = 0;
        while i < n
            invariant
                n == keys.len(),
                i <= n,
                forall|j: int| 0 <= j < i ==> !self.active_now(#[trigger] keys@[j]),
            decreases n - i,
        {
            if self.is_key_active(keys[i]) {
                return true;
            }
            i += 1;
        }
        false
    }
}

impl Default for InputController {
    /// A controller with no key active in either buffer.
    fn default() -> (r: InputController)
        ensures
            forall|k: Key| !r.active_now(k),
            forall|k: Key| !r.active_before(k),
    {
        InputController::new()
    }
}

} // verus!
