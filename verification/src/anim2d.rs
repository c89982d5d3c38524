//! Flip-book animation: which key frame of a sheet is shown at a given time.

use vstd::prelude::*;

verus! {

/// What an animation is made of, for contracts: how long each frame of the
/// sheet is shown, and the frames that the animation runs through.
pub struct Anim2DView {
    pub durations: Seq<u32>,
    pub keys: Seq<u32>,
}

impl Anim2DView {
    /// An animation has at least one key and one duration, no duration is
    /// zero, and every key names a frame that has a duration.
    pub open spec fn valid(self) -> bool {
        &&& self.keys.len() > 0
        &&& self.durations.len() > 0
        &&& forall|i: int| 0 <= i < self.durations.len() ==> self.durations[i] != 0
        &&& forall|i: int| 0 <= i < self.keys.len() ==> self.keys[i] < self.durations.len()
    }

    /// The key that is shown when `elapsed` time has gone by and the frame
    /// `index` was shown last: the time is counted in durations of that frame,
    /// and the count runs round the keys.
    pub open spec fn key_at(self, elapsed: int, index: int) -> u32 {
        self.keys[(elapsed / (self.durations[index] as int)) % (self.keys.len() as int)]
    }
}

/// The description of an animation.
pub struct Anim2DDesc {
    durations: Vec<u32>,
    keys: Vec<u32>,
}

impl View for Anim2DDesc {
    type V = Anim2DView;

    closed spec fn view(&self) -> Anim2DView {
        Anim2DView { durations: self.durations@, keys: self.keys@ }
    }
}

impl Anim2DDesc {
    #[verifier::type_invariant]
    spec fn well_formed(self) -> bool {
        self@.valid()
    }

    /// Describes an animation, if what is given is one.
    pub fn new(durations: Vec<u32>, keys: Vec<u32>) -> (desc: Option<Anim2DDesc>)
        ensures
            (Anim2DView { durations: durations@, keys: keys@ }).valid() ==> (desc matches Some(d)
                && d@ == (Anim2DView { durations: durations@, keys: keys@ })),
            !(Anim2DView { durations: durations@, keys: keys@ }).valid() ==> desc is None,
    {
        if keys.len() == 0 || durations.len() == 0 {
            return None;
        }
        let mut i: usize = 0;
        while i < durations.len()
            invariant
                i <= durations.len(),
                forall|j: int| 0 <= j < i ==> durations@[j] != 0,
            decreases durations.len() - i,
        {
            if durations[i] == 0 {
                return None;
            }
            i = i + 1;
        }
        let mut k: usize = 0;
        while k < keys.len()
            invariant
                k <= keys.len(),
                forall|j: int| 0 <= j < k ==> keys@[j] < durations@.len(),
            decreases keys.len() - k,
        {
            if keys[k] as usize >= durations.len() {
                return None;
            }
            k = k + 1;
        }
        Some(Anim2DDesc { durations, keys })
    }
}

/// What an [`Anim2D`] holds, for contracts.
pub struct PlaybackView {
    pub anim: Anim2DView,
    pub time: u32,
    pub started: u32,
    pub index: u32,
}

impl PlaybackView {
    /// The key that is shown now.
    pub open spec fn key(self) -> u32 {
        self.anim.key_at(self.time - self.started, self.index as int)
    }
}

/// A running animation.
pub struct Anim2D {
    time: u32,
    started: u32,
    durations: Vec<u32>,
    keys: Vec<u32>,
    index: u32,
}

impl View for Anim2D {
    type V = PlaybackView;

    closed spec fn view(&self) -> PlaybackView {
        PlaybackView {
            anim: Anim2DView { durations: self.durations@, keys: self.keys@ },
            time: self.time,
            started: self.started,
            index: self.index,
        }
    }
}

impl Anim2D {
    #[verifier::type_invariant]
    spec fn well_formed(self) -> bool {
        &&& self@.anim.valid()
        &&& self.started <= self.time
        &&& self.index < self.durations@.len()
    }

    /// Starts an animation at `started`, seen at `time`, on its first frame.
    /// The animation cannot be seen before it has started.
    pub fn new(time: u32, started: u32, anim: &Anim2DDesc) -> (playing: Anim2D)
        requires
            started <= time,
        ensures
            playing@ == (PlaybackView { anim: anim@, time, started, index: 0 }),
    {
        proof {
            use_type_invariant(anim);
        }
        let durations = anim.durations.clone();
        let keys = anim.keys.clone();
        assert(durations@ =~= anim.durations@);
        assert(keys@ =~= anim.keys@);
        Anim2D { time, started, durations, keys, index: 0 }
    }

    /// Moves the animation to `time` and makes the key shown then the current
    /// frame.
    pub fn update(&mut self, time: u32)
        requires
            old(self)@.started <= time,
        ensures
            final(self)@ == (PlaybackView {
                time,
                index: (PlaybackView { time, ..old(self)@ }).key(),
                ..old(self)@
            }),
    {
        proof {
            use_type_invariant(&*self);
        }
        self.time = time;
        self.index = self.index();
    }

    /// The key that is shown now.
    pub fn index(&self) -> (key: u32)
        ensures
            key == self@.key(),
            key < self@.anim.durations.len(),
    {
        proof {
            use_type_invariant(self);
        }
        let keyframe: u32 = (self.time - self.started) / self.durations[self.index as usize];
        self.keys[keyframe as usize % self.keys.len()]
    }
}

} // verus!
