//! The animation clock: named frame sequences and the time-driven state
//! machine that advances the active one.
//!
//! Time is measured in integer ticks.  A framerate is the number of
//! ticks one frame lasts; `update` accumulates elapsed ticks and
//! advances the current frame once per full framerate, several times in
//! one call if the elapsed time demands it.

use vstd::prelude::*;
use crate::helpers::strings::str_eq;

verus! {

/// Where a frame index lands: a request inside the frame list is
/// taken as is, anything out of range wraps to the first frame.
pub open spec fn wrap_frame(frame: int, len: int) -> int {
    if frame < len {
        frame
    } else {
        0
    }
}

/// How many whole frames an accumulated tick count advances: one per
/// full framerate, as long as the remainder still exceeds the
/// framerate.
pub open spec fn advance_steps(acc: int, framerate: int) -> int
    decreases acc,
{
    if framerate < 1 || acc <= framerate {
        0
    } else {
        1 + advance_steps(acc - framerate, framerate)
    }
}

/// The ticks left over once every whole frame has been taken out.
pub open spec fn remaining_acc(acc: int, framerate: int) -> int {
    acc - framerate * advance_steps(acc, framerate)
}

/// A named, ordered sequence of atlas frame offsets, with the time one
/// frame lasts and the index of the frame currently shown.
pub struct Animation {
    pub name: String,
    pub frames: Vec<(i64, i64)>,
    pub framerate: u32,
    pub current_frame: usize,
}

impl Animation {
    /// A well-formed animation has at least one frame, a positive
    /// framerate, and a current frame inside the list.
    pub open spec fn wf(self) -> bool {
        &&& self.frames@.len() >= 1
        &&& self.framerate >= 1
        &&& (self.current_frame as int) < self.frames@.len()
    }

    pub fn new(name: String, frames: Vec<(i64, i64)>) -> (r: Animation)
        requires
            frames@.len() >= 1,
        ensures
            r.name@ == name@,
            r.frames@ == frames@,
            r.framerate == 1,
            r.current_frame == 0,
            r.wf(),
    {
        Animation { name, frames, framerate: 1, current_frame: 0 }
    }

    /// Moves to the requested frame; an out-of-range request wraps to
    /// the first frame.
    pub fn set_current_frame(&mut self, frame: usize)
        requires
            old(self).frames@.len() >= 1,
        ensures
            *final(self) == (Animation {
                current_frame: wrap_frame(frame as int, old(self).frames@.len() as int) as usize,
                ..*old(self)
            }),
    {
        let frame_bounds = self.frames.len() - 1;
        if frame <= frame_bounds {
            self.current_frame = frame;
        } else {
            self.current_frame = 0;
        }
    }

    pub fn set_framerate(&mut self, framerate: u32)
        requires
            framerate >= 1,
        ensures
            *final(self) == (Animation { framerate, ..*old(self) }),
    {
        self.framerate = framerate;
    }
}

impl Default for Animation {
    /// One frame at the atlas origin, one tick per frame.
    fn default() -> (r: Animation)
        ensures
            r.name@ == "default"@,
            r.frames@ == seq![(0i64, 0i64)],
            r.framerate == 1,
            r.current_frame == 0,
            r.wf(),
    {
        let mut frames: Vec<(i64, i64)> = Vec::new();
        frames.push((0, 0));
        proof {
            assert(frames@ =~= seq![(0i64, 0i64)]);
        }
        Animation { name: "default".to_owned(), frames, framerate: 1, current_frame: 0 }
    }
}

/// Whether some animation carries the given name.
pub open spec fn contains_anim(s: Seq<Animation>, name: Seq<char>) -> bool {
    exists|i: int| 0 <= i < s.len() && s[i].name@ == name
}

/// The index of the animation with the given name.
pub open spec fn index_of_anim(s: Seq<Animation>, name: Seq<char>) -> int {
    choose|i: int| 0 <= i < s.len() && s[i].name@ == name
}

/// Where a newly registered animation lands: it replaces the animation
/// of the same name in place, or is appended if the name is new.
pub open spec fn register_anim(s: Seq<Animation>, a: Animation) -> Seq<Animation> {
    if contains_anim(s, a.name@) {
        s.update(index_of_anim(s, a.name@), a)
    } else {
        s.push(a)
    }
}

/// A whole list registered in order, later entries replacing earlier
/// ones of the same name.
pub open spec fn register_all(s: Seq<Animation>) -> Seq<Animation>
    decreases s.len(),
{
    if s.len() == 0 {
        Seq::empty()
    } else {
        register_anim(register_all(s.drop_last()), s.last())
    }
}

/// Law: registering a list whose names are pairwise distinct keeps
/// every animation, in order, exactly as given — so building a
/// registry from decoded records and reading the records back
/// preserves each animation's name, frame order and framerate.
pub proof fn lemma_register_all_preserves_unique(s: Seq<Animation>)
    requires
        forall|i: int, j: int| 0 <= i < j < s.len() ==> s[i].name@ != s[j].name@,
    ensures
        register_all(s) == s,
    decreases s.len(),
{
    if s.len() > 0 {
        lemma_register_all_preserves_unique(s.drop_last());
        assert(!contains_anim(s.drop_last(), s.last().name@)) by {
            if contains_anim(s.drop_last(), s.last().name@) {
                let i = choose|i: int|
                    0 <= i < s.drop_last().len() && s.drop_last()[i].name@ == s.last().name@;
                assert(s[i].name@ == s[s.len() - 1].name@);
                assert(false);
            }
        }
        assert(s.drop_last().push(s.last()) =~= s);
    }
}

/// The animation registry: a set of named animations, a playing flag,
/// the name of the active animation, and the accumulated ticks that
/// have not yet amounted to a whole frame.
pub struct Animations {
    pub animations: Vec<Animation>,
    pub is_playing: bool,
    pub current: Option<String>,
    pub accumulated: u32,
}

impl Animations {
    /// Every stored animation is well formed and names are unique.
    pub open spec fn wf(self) -> bool {
        &&& forall|i: int|
            0 <= i < self.animations@.len() ==> (#[trigger] self.animations@[i]).wf()
        &&& forall|i: int, j: int|
            0 <= i < j < self.animations@.len() ==> self.animations@[i].name@
                != self.animations@[j].name@
    }

    /// The active name, if any, names a stored animation.
    pub open spec fn current_ok(self) -> bool {
        match self.current {
            Some(k) => contains_anim(self.animations@, k@),
            None => true,
        }
    }

    /// The index of the animation named `name`, if there is one.
    fn find(&self, name: &str) -> (r: Option<usize>)
        ensures
            match r {
                Some(i) => i < self.animations@.len() && self.animations@[i as int].name@ == name@,
                None => !contains_anim(self.animations@, name@),
            },
    {
        let mut i: usize = 0;
        while i < self.animations.len()
            invariant
                i <= self.animations@.len(),
                forall|k: int| 0 <= k < i ==> self.animations@[k].name@ != name@,
            decreases self.animations@.len() - i,
        {
            if str_eq(self.animations[i].name.as_str(), name) {
                return Some(i);
            }
            i = i + 1;
        }
        None
    }

    /// Registers a single animation, replacing a stored one of the same
    /// name.
    fn register(&mut self, animation: Animation)
        requires
            old(self).wf(),
            animation.wf(),
        ensures
            final(self).animations@ == register_anim(old(self).animations@, animation),
            final(self).is_playing == old(self).is_playing,
            final(self).current == old(self).current,
            final(self).accumulated == old(self).accumulated,
            final(self).wf(),
    {
        match self.find(animation.name.as_str()) {
            Some(i) => {
                let ghost j = index_of_anim(old(self).animations@, animation.name@);
                proof {
                    assert(old(self).animations@[j].name@ == animation.name@);
                    assert(j == i as int);
                }
                self.animations.remove(i);
                self.animations.insert(i, animation);
                proof {
                    assert(self.animations@ =~= register_anim(
                        old(self).animations@,
                        animation,
                    ));
                }
            },
            None => {
                self.animations.push(animation);
            },
        }
    }

    /// Builds a registry from a list: each animation is registered in
    /// order, later entries replacing earlier ones of the same name.
    /// The registry starts stopped, with no active animation and no
    /// accumulated time.
    pub fn new(animations: Vec<Animation>) -> (r: Animations)
        requires
            forall|i: int| 0 <= i < animations@.len() ==> (#[trigger] animations@[i]).wf(),
        ensures
            r.animations@ == register_all(animations@),
            !r.is_playing,
            r.current is None,
            r.accumulated == 0,
            r.wf(),
    {
        let ghost input = animations@;
        let mut r = Animations {
            animations: Vec::new(),
            is_playing: false,
            current: None,
            accumulated: 0,
        };
        let mut rest = animations;
        while rest.len() > 0
            invariant
                rest@.len() <= input.len(),
                rest@ == input.skip(input.len() - rest@.len()),
                r.animations@ == register_all(input.take(input.len() - rest@.len())),
                !r.is_playing,
                r.current is None,
                r.accumulated == 0,
                r.wf(),
                forall|k: int| 0 <= k < input.len() ==> (#[trigger] input[k]).wf(),
            decreases rest@.len(),
        {
            let ghost i = input.len() - rest@.len();
            let a = rest.remove(0);
            proof {
                assert(a == input[i]);
                assert(input.skip(i).remove(0) =~= input.skip(i + 1));
                assert(input.take(i + 1).drop_last() =~= input.take(i));
                assert(input.take(i + 1).last() == input[i]);
            }
            r.register(a);
        }
        proof {
            assert(input.take(input.len() as int) =~= input);
        }
        r
    }

    /// Registers an animation with the running registry.
    pub fn add(&mut self, animation: Animation)
        requires
            old(self).wf(),
            animation.wf(),
        ensures
            final(self).animations@ == register_anim(old(self).animations@, animation),
            final(self).is_playing == old(self).is_playing,
            final(self).current == old(self).current,
            final(self).accumulated == old(self).accumulated,
            final(self).wf(),
    {
        self.register(animation);
    }

    /// Drops the animation of the given name, if any.
    pub fn remove(&mut self, key: &str)
        requires
            old(self).wf(),
        ensures
            contains_anim(old(self).animations@, key@) ==> final(self).animations@ == old(
                self,
            ).animations@.remove(index_of_anim(old(self).animations@, key@)),
            !contains_anim(old(self).animations@, key@) ==> final(self).animations@ == old(
                self,
            ).animations@,
            final(self).is_playing == old(self).is_playing,
            final(self).current == old(self).current,
            final(self).accumulated == old(self).accumulated,
            final(self).wf(),
    {
        match self.find(key) {
            Some(i) => {
                let ghost j = index_of_anim(old(self).animations@, key@);
                proof {
                    assert(old(self).animations@[j].name@ == key@);
                    assert(j == i as int);
                }
                self.animations.remove(i);
            },
            None => {},
        }
    }

    pub fn clear(&mut self)
        ensures
            final(self).animations@ == Seq::<Animation>::empty(),
            final(self).is_playing == old(self).is_playing,
            final(self).current == old(self).current,
            final(self).accumulated == old(self).accumulated,
            final(self).wf(),
    {
        self.animations.clear();
    }

    /// Makes the named animation current without touching anything
    /// else.
    pub fn set_current(&mut self, key: &str)
        ensures
            final(self).current matches Some(k) && k@ == key@,
            final(self).animations@ == old(self).animations@,
            final(self).is_playing == old(self).is_playing,
            final(self).accumulated == old(self).accumulated,
    {
        self.current = Some(key.to_owned());
    }

    pub fn is_playing(&self) -> (r: bool)
        ensures
            r == self.is_playing,
    {
        self.is_playing
    }

    /// Starts playing the named animation.  Nothing else is reset.
    pub fn play(&mut self, key: &str)
        ensures
            final(self).is_playing,
            final(self).current matches Some(k) && k@ == key@,
            final(self).animations@ == old(self).animations@,
            final(self).accumulated == old(self).accumulated,
    {
        self.is_playing = true;
        self.current = Some(key.to_owned());
    }

    /// Pauses; accumulated time is retained.
    pub fn pause(&mut self)
        ensures
            *final(self) == (Animations { is_playing: false, ..*old(self) }),
    {
        self.is_playing = false;
    }

    pub fn resume(&mut self)
        ensures
            *final(self) == (Animations { is_playing: true, ..*old(self) }),
    {
        self.is_playing = true;
    }

    /// Stops: the accumulated time is reset to zero and the current
    /// animation's frame moves back to the first, whatever state the
    /// clock was in.
    pub fn stop(&mut self)
        requires
            old(self).wf(),
            old(self).current_ok(),
        ensures
            !final(self).is_playing,
            final(self).accumulated == 0,
            final(self).current == old(self).current,
            old(self).current is None ==> final(self).animations@ == old(self).animations@,
            old(self).current matches Some(k) ==> {
                let j = index_of_anim(old(self).animations@, k@);
                final(self).animations@ == old(self).animations@.update(
                    j,
                    (Animation { current_frame: 0, ..old(self).animations@[j] }),
                )
            },
            final(self).wf(),
    {
        self.is_playing = false;
        self.accumulated = 0;
        let key = match &self.current {
            Some(k) => k.clone(),
            None => {
                return ;
            },
        };
        let found = self.find(key.as_str());
        match found {
            Some(i) => {
                let ghost j = index_of_anim(old(self).animations@, key@);
                proof {
                    assert(old(self).animations@[j].name@ == key@);
                    assert(j == i as int);
                }
                let mut anim = self.animations.remove(i);
                anim.set_current_frame(0);
                self.animations.insert(i, anim);
                proof {
                    assert(self.animations@ =~= old(self).animations@.update(
                        j,
                        (Animation { current_frame: 0, ..old(self).animations@[j] }),
                    ));
                }
            },
            None => {
                proof {
                    assert(false);
                }
            },
        }
    }

    /// The active frame's atlas offset, or the origin when nothing is
    /// current.
    pub fn get_frame(&self) -> (r: (i64, i64))
        requires
            self.wf(),
            self.current_ok(),
        ensures
            self.current is None ==> r == (0i64, 0i64),
            self.current matches Some(k) ==> {
                let a = self.animations@[index_of_anim(self.animations@, k@)];
                r == a.frames@[a.current_frame as int]
            },
    {
        let key = match &self.current {
            Some(k) => k,
            None => {
                return (0, 0);
            },
        };
        let found = self.find(key.as_str());
        match found {
            Some(i) => {
                proof {
                    let j = index_of_anim(self.animations@, key@);
                    assert(self.animations@[j].name@ == key@);
                    assert(j == i as int);
                }
                let anim = &self.animations[i];
                anim.frames[anim.current_frame]
            },
            None => {
                proof {
                    assert(false);
                }
                (0, 0)
            },
        }
    }

    /// Moves the current animation to the requested frame, wrapping an
    /// out-of-range request to the first frame.
    pub fn set_frame(&mut self, frame: usize)
        requires
            old(self).wf(),
            old(self).current_ok(),
        ensures
            old(self).current is None ==> *final(self) == *old(self),
            old(self).current matches Some(k) ==> {
                let j = index_of_anim(old(self).animations@, k@);
                let a = old(self).animations@[j];
                final(self).animations@ == old(self).animations@.update(
                    j,
                    (Animation {
                        current_frame: wrap_frame(frame as int, a.frames@.len() as int) as usize,
                        ..a
                    }),
                )
            },
            final(self).is_playing == old(self).is_playing,
            final(self).current == old(self).current,
            final(self).accumulated == old(self).accumulated,
            final(self).wf(),
    {
        let key = match &self.current {
            Some(k) => k.clone(),
            None => {
                return ;
            },
        };
        let found = self.find(key.as_str());
        match found {
            Some(i) => {
                let ghost j = index_of_anim(old(self).animations@, key@);
                proof {
                    assert(old(self).animations@[j].name@ == key@);
                    assert(j == i as int);
                }
                let mut anim = self.animations.remove(i);
                anim.set_current_frame(frame);
                self.animations.insert(i, anim);
                proof {
                    let a = old(self).animations@[j];
                    assert(self.animations@ =~= old(self).animations@.update(
                        j,
                        (Animation {
                            current_frame: wrap_frame(frame as int, a.frames@.len() as int) as usize,
                            ..a
                        }),
                    ));
                }
            },
            None => {
                proof {
                    assert(false);
                }
            },
        }
    }

    /// Changes the current animation's framerate.
    pub fn set_framerate(&mut self, framerate: u32)
        requires
            old(self).wf(),
            old(self).current_ok(),
            framerate >= 1,
        ensures
            old(self).current is None ==> *final(self) == *old(self),
            old(self).current matches Some(k) ==> {
                let j = index_of_anim(old(self).animations@, k@);
                final(self).animations@ == old(self).animations@.update(
                    j,
                    (Animation { framerate, ..old(self).animations@[j] }),
                )
            },
            final(self).is_playing == old(self).is_playing,
            final(self).current == old(self).current,
            final(self).accumulated == old(self).accumulated,
            final(self).wf(),
    {
        let key = match &self.current {
            Some(k) => k.clone(),
            None => {
                return ;
            },
        };
        let found = self.find(key.as_str());
        match found {
            Some(i) => {
                let ghost j = index_of_anim(old(self).animations@, key@);
                proof {
                    assert(old(self).animations@[j].name@ == key@);
                    assert(j == i as int);
                }
                let mut anim = self.animations.remove(i);
                anim.set_framerate(framerate);
                self.animations.insert(i, anim);
                proof {
                    assert(self.animations@ =~= old(self).animations@.update(
                        j,
                        (Animation { framerate, ..old(self).animations@[j] }),
                    ));
                }
            },
            None => {
                proof {
                    assert(false);
                }
            },
        }
    }

    /// While playing, advances the current animation by one frame,
    /// wrapping at the end of the frame list.
    pub fn update_frame(&mut self)
        requires
            old(self).wf(),
            old(self).current_ok(),
        ensures
            !old(self).is_playing ==> *final(self) == *old(self),
            old(self).is_playing && old(self).current is None ==> *final(self) == *old(self),
            old(self).is_playing ==> (old(self).current matches Some(k) ==> {
                let j = index_of_anim(old(self).animations@, k@);
                let a = old(self).animations@[j];
                final(self).animations@ == old(self).animations@.update(
                    j,
                    (Animation {
                        current_frame: wrap_frame(
                            a.current_frame + 1,
                            a.frames@.len() as int,
                        ) as usize,
                        ..a
                    }),
                )
            }),
            final(self).is_playing == old(self).is_playing,
            final(self).current == old(self).current,
            final(self).accumulated == old(self).accumulated,
            final(self).wf(),
    {
        if !self.is_playing {
            return ;
        }
        let key = match &self.current {
            Some(k) => k.clone(),
            None => {
                return ;
            },
        };
        let found = self.find(key.as_str());
        match found {
            Some(i) => {
                let ghost j = index_of_anim(old(self).animations@, key@);
                proof {
                    assert(old(self).animations@[j].name@ == key@);
                    assert(j == i as int);
                }
                let mut anim = self.animations.remove(i);
                proof {
                    assert(old(self).animations@[j].wf());
                }
                let flen = anim.frames.len();
                let next = anim.current_frame + 1;
                anim.set_current_frame(next);
                self.animations.insert(i, anim);
                proof {
                    let a = old(self).animations@[j];
                    assert(self.animations@ =~= old(self).animations@.update(
                        j,
                        (Animation {
                            current_frame: wrap_frame(
                                a.current_frame + 1,
                                a.frames@.len() as int,
                            ) as usize,
                            ..a
                        }),
                    ));
                }
            },
            None => {
                proof {
                    assert(false);
                }
            },
        }
    }

    /// The clock tick.  While playing with a current animation, `dt`
    /// ticks are added to the accumulated time; then, as long as the
    /// accumulated time exceeds the framerate, one framerate is taken
    /// out and the frame advances by one, wrapping at the end of the
    /// list.  Several frames can pass in one call; a paused clock or a
    /// clock with nothing current ignores the ticks entirely.
    pub fn update(&mut self, dt: u32)
        requires
            old(self).wf(),
            old(self).current_ok(),
        ensures
            !old(self).is_playing ==> *final(self) == *old(self),
            old(self).is_playing && old(self).current is None ==> *final(self) == *old(self),
            old(self).is_playing ==> (old(self).current matches Some(k) ==> {
                let j = index_of_anim(old(self).animations@, k@);
                let a = old(self).animations@[j];
                let total = old(self).accumulated + dt;
                let steps = advance_steps(total as int, a.framerate as int);
                &&& final(self).accumulated == remaining_acc(total as int, a.framerate as int)
                &&& final(self).animations@ == old(self).animations@.update(
                    j,
                    (Animation {
                        current_frame: ((a.current_frame + steps) % (a.frames@.len() as int)) as usize,
                        ..a
                    }),
                )
            }),
            final(self).is_playing == old(self).is_playing,
            final(self).current == old(self).current,
            final(self).wf(),
    {
        if !self.is_playing {
            return ;
        }
        let key = match &self.current {
            Some(k) => k.clone(),
            None => {
                return ;
            },
        };
        let found = self.find(key.as_str());
        match found {
            Some(i) => {
                let ghost j = index_of_anim(old(self).animations@, key@);
                proof {
                    assert(old(self).animations@[j].name@ == key@);
                    assert(j == i as int);
                }
                let mut anim = self.animations.remove(i);
                let ghost a0 = old(self).animations@[j];
                proof {
                    assert(a0.wf());
                }
                let ghost total = old(self).accumulated + dt;
                let fr = anim.framerate;
                let flen = anim.frames.len();
                let mut acc: u64 = self.accumulated as u64 + dt as u64;
                let ghost len = a0.frames@.len() as int;
                let ghost steps_total = advance_steps(total as int, fr as int);
                let ghost mut steps: int = 0;
                proof {
                    vstd::arithmetic::div_mod::lemma_small_mod(
                        a0.current_frame as nat,
                        len as nat,
                    );
                }
                while acc > fr as u64
                    invariant
                        anim.name == a0.name,
                        anim.frames == a0.frames,
                        anim.framerate == fr,
                        fr == a0.framerate,
                        fr >= 1,
                        len == a0.frames@.len() as int,
                        len == flen as int,
                        len >= 1,
                        (anim.current_frame as int) < len,
                        0 <= steps,
                        acc == total - fr * steps,
                        anim.current_frame as int == (a0.current_frame + steps) % len,
                        steps_total == steps + advance_steps(acc as int, fr as int),
                    decreases acc,
                {
                    proof {
                        assert(fr * (steps + 1) == fr * steps + fr) by (nonlinear_arith);
                        assert(advance_steps(acc as int, fr as int) == 1 + advance_steps(
                            acc - fr,
                            fr as int,
                        ));
                    }
                    let ghost prev = anim.current_frame as int;
                    acc = acc - fr as u64;
                    let next = anim.current_frame + 1;
                    anim.set_current_frame(next);
                    proof {
                        steps = steps + 1;
                        let x = a0.current_frame + steps - 1;
                        assert(x % len == prev);
                        vstd::arithmetic::div_mod::lemma_add_mod_noop(x, 1, len);
                        vstd::arithmetic::div_mod::lemma_small_mod(prev as nat, len as nat);
                        if len == 1 {
                            vstd::arithmetic::div_mod::lemma_mod_self_0(len);
                            assert(1int % len == 0);
                            assert((x + 1) % len == prev % len);
                        } else {
                            vstd::arithmetic::div_mod::lemma_small_mod(1nat, len as nat);
                            if prev + 1 < len {
                                vstd::arithmetic::div_mod::lemma_small_mod(
                                    (prev + 1) as nat,
                                    len as nat,
                                );
                            } else {
                                vstd::arithmetic::div_mod::lemma_mod_self_0(len);
                            }
                        }
                        assert(anim.current_frame as int == (a0.current_frame + steps) % len);
                    }
                }
                self.accumulated = acc as u32;
                self.animations.insert(i, anim);
                proof {
                    assert(advance_steps(acc as int, fr as int) == 0);
                    assert(steps == steps_total);
                    assert(self.accumulated == remaining_acc(total as int, fr as int));
                    assert(self.animations@ =~= old(self).animations@.update(
                        j,
                        (Animation {
                            current_frame: ((a0.current_frame + steps_total) % len) as usize,
                            ..a0
                        }),
                    ));
                }
            },
            None => {
                proof {
                    assert(false);
                }
            },
        }
    }
}

} // verus!
