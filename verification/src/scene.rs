//! Live-mode scenes: named snapshots of the whole signal chain, kept in
//! performance order, with an optional active scene that next/prev step
//! through with wrap-around.
use crate::signal_chain::SignalChain;
use vstd::prelude::*;

verus! {

/// A single performance scene — a named snapshot of the full signal chain.
#[derive(Debug, Clone)]
pub struct Scene {
    pub name: String,
    pub signal_chain: SignalChain,
}

/// Ordered collection of scenes for live performance.
#[derive(Debug, Clone)]
pub struct SceneCollection {
    pub scenes: Vec<Scene>,
    pub active_scene: Option<usize>,
}

/// The active index once it is known to name a scene: `active` when it is
/// below `len`, nothing otherwise.
pub open spec fn valid_active(active: Option<usize>, len: nat) -> Option<usize> {
    match active {
        Some(i) => if i < len {
            Some(i)
        } else {
            None
        },
        None => None,
    }
}

/// The scene that `next_scene` selects in a collection of `len > 0` scenes.
pub open spec fn next_index(active: Option<usize>, len: nat) -> int {
    match active {
        Some(i) => (i + 1) % (len as int),
        None => 0,
    }
}

/// The scene that `prev_scene` selects in a collection of `len > 0` scenes;
/// an active index outside the collection counts as no active scene.
pub open spec fn prev_index(active: Option<usize>, len: nat) -> int {
    match valid_active(active, len) {
        Some(i) => if i == 0 {
            len - 1
        } else {
            i - 1
        },
        None => 0,
    }
}

/// The active index after the scene at `index` was removed from a collection
/// of `old_len` scenes.
pub open spec fn active_after_removal(active: Option<usize>, index: int, old_len: nat) -> Option<usize> {
    match active {
        Some(a) => if a == index {
            if old_len - 1 == 0 {
                None
            } else if a <= old_len - 2 {
                Some(a)
            } else {
                Some((old_len - 2) as usize)
            }
        } else if a > index {
            Some((a - 1) as usize)
        } else {
            Some(a)
        },
        None => None,
    }
}

/// `s` with the element at `from` moved to position `to`.
pub open spec fn reordered<A>(s: Seq<A>, from: int, to: int) -> Seq<A> {
    s.remove(from).insert(to, s[from])
}

impl SceneCollection {
    pub fn new() -> (c: Self)
        ensures
            c.scenes@ == Seq::<Scene>::empty(),
            c.active_scene is None,
    {
        Self { scenes: Vec::new(), active_scene: None }
    }

    pub fn is_empty(&self) -> (b: bool)
        ensures
            b == (self.scenes@.len() == 0),
    {
        self.scenes.len() == 0
    }

    pub fn len(&self) -> (n: usize)
        ensures
            n == self.scenes@.len(),
    {
        self.scenes.len()
    }

    /// Add a new scene at the end.
    pub fn add_scene(&mut self, name: String, signal_chain: SignalChain)
        ensures
            final(self).scenes@ == old(self).scenes@.push(Scene { name, signal_chain }),
            final(self).active_scene == old(self).active_scene,
    {
        self.scenes.push(Scene { name, signal_chain });
    }

    /// Insert a scene at a specific index (clamped to the end of the list).
    pub fn insert_scene(&mut self, index: usize, name: String, signal_chain: SignalChain)
        ensures
            final(self).scenes@ == old(self).scenes@.insert(
                if index <= old(self).scenes@.len() {
                    index as int
                } else {
                    old(self).scenes@.len() as int
                },
                Scene { name, signal_chain },
            ),
            final(self).active_scene == old(self).active_scene,
    {
        let idx = if index < self.scenes.len() {
            index
        } else {
            self.scenes.len()
        };
        self.scenes.insert(idx, Scene { name, signal_chain });
    }

    /// Remove a scene by index. Returns the removed scene, or None.
    pub fn remove_scene(&mut self, index: usize) -> (r: Option<Scene>)
        ensures
            index < old(self).scenes@.len() ==> {
                &&& r == Some(old(self).scenes@[index as int])
                &&& final(self).scenes@ == old(self).scenes@.remove(index as int)
                &&& final(self).active_scene == active_after_removal(
                    old(self).active_scene,
                    index as int,
                    old(self).scenes@.len(),
                )
            },
            index >= old(self).scenes@.len() ==> {
                &&& r is None
                &&& final(self).scenes@ == old(self).scenes@
                &&& final(self).active_scene == old(self).active_scene
            },
    {
        if index < self.scenes.len() {
            let removed = self.scenes.remove(index);
            // Adjust active_scene if it pointed past the removal
            if let Some(active) = self.active_scene {
                if active == index {
                    self.active_scene = if self.scenes.len() == 0 {
                        None
                    } else {
                        let last = self.scenes.len() - 1;
                        Some(
                            if active <= last {
                                active
                            } else {
                                last
                            },
                        )
                    };
                } else if active > index {
                    self.active_scene = Some(active - 1);
                }
            }
            Some(removed)
        } else {
            None
        }
    }

    /// Rename a scene at the given index.
    pub fn rename_scene(&mut self, index: usize, new_name: String) -> (r: Option<()>)
        ensures
            index < old(self).scenes@.len() ==> {
                &&& r is Some
                &&& final(self).scenes@ == old(self).scenes@.update(
                    index as int,
                    Scene { name: new_name, ..old(self).scenes@[index as int] },
                )
            },
            index >= old(self).scenes@.len() ==> r is None && final(self).scenes@
                == old(self).scenes@,
            final(self).active_scene == old(self).active_scene,
    {
        if index < self.scenes.len() {
            let mut scene = self.scenes.remove(index);
            scene.name = new_name;
            self.scenes.insert(index, scene);
            assert(self.scenes@ =~= old(self).scenes@.update(
                index as int,
                Scene { name: new_name, ..old(self).scenes@[index as int] },
            ));
            Some(())
        } else {
            None
        }
    }

    /// Move a scene from one index to another.
    pub fn reorder_scene(&mut self, from: usize, to: usize) -> (r: Option<()>)
        ensures
            from < old(self).scenes@.len() && to < old(self).scenes@.len() && from != to ==> {
                &&& r is Some
                &&& final(self).scenes@ == reordered(old(self).scenes@, from as int, to as int)
            },
            !(from < old(self).scenes@.len() && to < old(self).scenes@.len() && from != to) ==> {
                &&& r is None
                &&& final(self).scenes@ == old(self).scenes@
            },
            final(self).active_scene == old(self).active_scene,
    {
        let len = self.scenes.len();
        if from >= len || to >= len || from == to {
            return None;
        }
        let scene = self.scenes.remove(from);
        let insert_at = to;
        self.scenes.insert(insert_at, scene);
        Some(())
    }

    /// Get a reference to a scene by index.
    pub fn get_scene(&self, index: usize) -> (r: Option<&Scene>)
        ensures
            index < self.scenes@.len() ==> r == Some(&self.scenes@[index as int]),
            index >= self.scenes@.len() ==> r is None,
    {
        if index < self.scenes.len() {
            Some(&self.scenes[index])
        } else {
            None
        }
    }

    /// Get the active scene index.
    pub fn active_index(&self) -> (r: Option<usize>)
        ensures
            r == valid_active(self.active_scene, self.scenes@.len()),
    {
        match self.active_scene {
            Some(i) => if i < self.scenes.len() {
                Some(i)
            } else {
                None
            },
            None => None,
        }
    }

    /// Get the active scene.
    pub fn active_scene(&self) -> (r: Option<&Scene>)
        ensures
            match valid_active(self.active_scene, self.scenes@.len()) {
                Some(i) => r == Some(&self.scenes@[i as int]),
                None => r is None,
            },
    {
        match self.active_index() {
            Some(i) => self.get_scene(i),
            None => None,
        }
    }

    /// Set the active scene index (ignored when out of range).
    pub fn set_active(&mut self, index: usize)
        ensures
            final(self).scenes@ == old(self).scenes@,
            index < old(self).scenes@.len() ==> final(self).active_scene == Some(index),
            index >= old(self).scenes@.len() ==> final(self).active_scene
                == old(self).active_scene,
    {
        if index < self.scenes.len() {
            self.active_scene = Some(index);
        }
    }

    /// Move to the next scene (wraps around).
    pub fn next_scene(&mut self) -> (r: Option<usize>)
        requires
            old(self).active_scene != Some(usize::MAX),
        ensures
            final(self).scenes@ == old(self).scenes@,
            old(self).scenes@.len() == 0 ==> r is None && final(self).active_scene
                == old(self).active_scene,
            old(self).scenes@.len() > 0 ==> {
                &&& r == Some(next_index(old(self).active_scene, old(self).scenes@.len()) as usize)
                &&& final(self).active_scene == r
            },
    {
        if self.scenes.len() == 0 {
            return None;
        }
        let next = match self.active_scene {
            Some(i) => (i + 1) % self.scenes.len(),
            None => 0,
        };
        self.active_scene = Some(next);
        Some(next)
    }

    /// Move to the previous scene (wraps around); without a valid active
    /// scene the first one is selected.
    pub fn prev_scene(&mut self) -> (r: Option<usize>)
        ensures
            final(self).scenes@ == old(self).scenes@,
            old(self).scenes@.len() == 0 ==> r is None && final(self).active_scene
                == old(self).active_scene,
            old(self).scenes@.len() > 0 ==> {
                &&& r == Some(prev_index(old(self).active_scene, old(self).scenes@.len()) as usize)
                &&& final(self).active_scene == r
            },
    {
        if self.scenes.len() == 0 {
            return None;
        }
        let prev = match self.active_index() {
            Some(i) => if i == 0 {
                self.scenes.len() - 1
            } else {
                i - 1
            },
            None => 0,
        };
        self.active_scene = Some(prev);
        Some(prev)
    }
}


/// A scene descriptor returned to the frontend.
#[derive(Debug, Clone)]
pub struct SceneInfo {
    pub index: usize,
    pub name: String,
    pub slot_count: usize,
    pub is_active: bool,
}

/// Why a scene could not be updated.
#[derive(Debug, Clone, Copy, PartialEq, Eq, Structural)]
pub enum SceneError {
    /// No scene has the given index.
    IndexOutOfRange,
}

/// `info` describes scene `i` of `c`, marked active as `active`.
pub open spec fn describes_scene(info: SceneInfo, c: SceneCollection, i: int, active: bool) -> bool {
    &&& info.index == i
    &&& info.name@ == c.scenes@[i].name@
    &&& info.slot_count == c.scenes@[i].signal_chain.slots@.len()
    &&& info.is_active == active
}

impl SceneCollection {
    /// One descriptor per scene, in order; only the active scene is marked.
    pub fn scene_infos(&self) -> (infos: Vec<SceneInfo>)
        ensures
            infos@.len() == self.scenes@.len(),
            forall|i: int|
                0 <= i < infos@.len() ==> describes_scene(
                    #[trigger] infos@[i],
                    *self,
                    i,
                    valid_active(self.active_scene, self.scenes@.len()) == Some(i as usize),
                ),
    {
        let active = self.active_index();
        let mut infos: Vec<SceneInfo> = Vec::new();
        let mut i: usize = 0;
        while i < self.scenes.len()
            invariant
                i <= self.scenes@.len(),
                infos@.len() == i,
                active == valid_active(self.active_scene, self.scenes@.len()),
                forall|k: int|
                    0 <= k < i ==> describes_scene(
                        #[trigger] infos@[k],
                        *self,
                        k,
                        active == Some(k as usize),
                    ),
            decreases self.scenes.len() - i,
        {
            let s = &self.scenes[i];
            let is_active = match active {
                Some(a) => a == i,
                None => false,
            };
            infos.push(
                SceneInfo {
                    index: i,
                    name: s.name.clone(),
                    slot_count: s.signal_chain.slots.len(),
                    is_active,
                },
            );
            i = i + 1;
        }
        infos
    }

    /// The descriptor of scene `index` as a freshly selected scene.
    pub fn selected_info(&self, index: usize) -> (info: SceneInfo)
        requires
            index < self.scenes@.len(),
        ensures
            describes_scene(info, *self, index as int, true),
    {
        let s = &self.scenes[index];
        SceneInfo {
            index,
            name: s.name.clone(),
            slot_count: s.signal_chain.slots.len(),
            is_active: true,
        }
    }

    /// Saves a chain as a new scene at the end and returns its descriptor
    /// (reported with no slots and not active).
    pub fn save_scene(&mut self, name: String, signal_chain: SignalChain) -> (info: SceneInfo)
        ensures
            final(self).scenes@ == old(self).scenes@.push(Scene { name, signal_chain }),
            final(self).active_scene == old(self).active_scene,
            info.index == old(self).scenes@.len(),
            info.name == name,
            info.slot_count == 0,
            !info.is_active,
    {
        let index = self.scenes.len();
        let info = SceneInfo { index, name: name.clone(), slot_count: 0, is_active: false };
        self.add_scene(name, signal_chain);
        info
    }

    /// Overwrites the chain of scene `index`.
    pub fn update_scene(&mut self, index: usize, signal_chain: SignalChain) -> (r: Result<(), SceneError>)
        ensures
            index < old(self).scenes@.len() ==> r is Ok && final(self).scenes@ == old(
                self,
            ).scenes@.update(index as int, Scene { signal_chain, ..old(self).scenes@[index as int] }),
            index >= old(self).scenes@.len() ==> r == Err::<(), SceneError>(
                SceneError::IndexOutOfRange,
            ) && final(self).scenes@ == old(self).scenes@,
            final(self).active_scene == old(self).active_scene,
    {
        if index >= self.scenes.len() {
            return Err(SceneError::IndexOutOfRange);
        }
        let mut scene = self.scenes.remove(index);
        scene.signal_chain = signal_chain;
        self.scenes.insert(index, scene);
        assert(self.scenes@ =~= old(self).scenes@.update(
            index as int,
            Scene { signal_chain, ..old(self).scenes@[index as int] },
        ));
        Ok(())
    }
}

impl Default for SceneCollection {
    fn default() -> (c: Self)
        ensures
            c.scenes@ == Seq::<Scene>::empty(),
            c.active_scene is None,
    {
        Self::new()
    }
}


/// Stepping forward then back (or back then forward) from an active scene
/// lands on that same scene again.
pub proof fn lemma_next_prev_inverse(active: usize, len: nat)
    requires
        active < len,
        len <= usize::MAX,
    ensures
        prev_index(Some(next_index(Some(active), len) as usize), len) == active,
        next_index(Some(prev_index(Some(active), len) as usize), len) == active,
{
    if active + 1 < len {
        vstd::arithmetic::div_mod::lemma_small_mod((active + 1) as nat, len);
    } else {
        vstd::arithmetic::div_mod::lemma_mod_self_0(len as int);
    }
    if active == 0 {
        vstd::arithmetic::div_mod::lemma_mod_self_0(len as int);
    } else {
        vstd::arithmetic::div_mod::lemma_small_mod(active as nat, len);
    }
}

proof fn lemma_mod_succ(x: int, m: int)
    requires
        m > 0,
    ensures
        ((x % m) + 1) % m == (x + 1) % m,
{
    vstd::arithmetic::div_mod::lemma_add_mod_noop(x, 1, m);
    if m > 1 {
        vstd::arithmetic::div_mod::lemma_small_mod(1, m as nat);
    } else {
        assert(((x % m) + 1) % m == 0);
        assert((x + 1) % m == 0);
    }
}

/// The scene `next_scene` reaches after `steps` presses from `start`.
pub open spec fn next_after(start: int, steps: nat, len: nat) -> int
    decreases steps,
{
    if steps == 0 {
        start
    } else {
        (next_after(start, (steps - 1) as nat, len) + 1) % (len as int)
    }
}

/// Pressing "next" repeatedly from any scene of a setlist of `len` scenes
/// walks it in order: after `steps` presses the selection is
/// `(start + steps) mod len`, so `len` presses come back to `start`.
pub proof fn lemma_next_wraps_around(start: int, steps: nat, len: nat)
    requires
        0 <= start < len,
    ensures
        next_after(start, steps, len) == (start + steps) % (len as int),
        next_after(start, len, len) == start,
{
    lemma_next_after_formula(start, steps, len);
    lemma_next_after_formula(start, len, len);
    vstd::arithmetic::div_mod::lemma_mod_add_multiples_vanish(start, len as int);
    vstd::arithmetic::div_mod::lemma_small_mod(start as nat, len);
}

proof fn lemma_next_after_formula(start: int, steps: nat, len: nat)
    requires
        0 <= start < len,
    ensures
        next_after(start, steps, len) == (start + steps) % (len as int),
    decreases steps,
{
    if steps == 0 {
        vstd::arithmetic::div_mod::lemma_small_mod(start as nat, len);
    } else {
        lemma_next_after_formula(start, (steps - 1) as nat, len);
        lemma_mod_succ(start + steps - 1, len as int);
    }
}

/// Removing another scene keeps the selection on the same scene; removing
/// the active scene selects a scene that exists, or nothing once the
/// collection is empty.
pub proof fn lemma_removal_keeps_selection(scenes: Seq<Scene>, active: usize, index: int)
    requires
        0 <= index < scenes.len(),
        active < scenes.len(),
    ensures
        active != index ==> ({
            let a = active_after_removal(Some(active), index, scenes.len());
            a is Some && scenes.remove(index)[a.unwrap() as int] == scenes[active as int]
        }),
        active == index && scenes.len() > 1 ==> ({
            let a = active_after_removal(Some(active), index, scenes.len());
            a is Some && a.unwrap() < scenes.remove(index).len()
        }),
        active == index && scenes.len() == 1 ==> active_after_removal(Some(active), index, scenes.len()) is None,
{
}

/// Moving a scene from `from` to `to` and then from `to` back to `from`
/// restores the original order.
pub proof fn lemma_reorder_round_trip<A>(s: Seq<A>, from: int, to: int)
    requires
        0 <= from < s.len(),
        0 <= to < s.len(),
    ensures
        reordered(reordered(s, from, to), to, from) == s,
        reordered(s, from, to)[to] == s[from],
        reordered(s, from, to).len() == s.len(),
{
    let r = reordered(s, from, to);
    assert(r[to] == s[from]);
    assert(r.remove(to) =~= s.remove(from));
    assert(reordered(r, to, from) =~= s);
}

} // verus!
