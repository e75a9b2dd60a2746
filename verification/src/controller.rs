//! The per-entity animation controller: a named collection of clips, a
//! designated fallback entry, the currently playing clip, and the
//! fixed-rate timer that decides when to step it.
//!
//! The collection is an association list with unique keys; its meaning is
//! the finite map `clip_map` below, and every contract speaks of that map.

use crate::animation::{ClipModel, SpriteAnimData, SpriteAnimError};
use vstd::pervasive::unreached;
use vstd::prelude::*;

verus! {

/// One second, in the microsecond units the controller's timer counts in.
pub const MICROS_PER_SECOND: u64 = 1_000_000;

/// No two entries of the collection share a name.
pub open spec fn keys_unique(entries: Seq<(String, SpriteAnimData)>) -> bool {
    forall|i: int, j: int|
        0 <= i < j < entries.len() ==> (#[trigger] entries[i]).0@ != (#[trigger] entries[j]).0@
}

/// The finite map an entry list denotes; a later entry shadows an earlier
/// one with the same name.
pub open spec fn clip_map(entries: Seq<(String, SpriteAnimData)>) -> Map<Seq<char>, ClipModel>
    decreases entries.len(),
{
    if entries.len() == 0 {
        Map::empty()
    } else {
        clip_map(entries.drop_last()).insert(entries.last().0@, entries.last().1@)
    }
}

proof fn lemma_keys_unique_drop_last(entries: Seq<(String, SpriteAnimData)>)
    requires
        keys_unique(entries),
        entries.len() > 0,
    ensures
        keys_unique(entries.drop_last()),
{
    assert forall|a: int, b: int| 0 <= a < b < entries.drop_last().len() implies (#[trigger] entries
        .drop_last()[a]).0@ != (#[trigger] entries.drop_last()[b]).0@ by {
        assert(entries.drop_last()[a] == entries[a]);
        assert(entries.drop_last()[b] == entries[b]);
    }
}

/// The map contains a name exactly when some entry bears it.
pub proof fn lemma_clip_map_contains(entries: Seq<(String, SpriteAnimData)>, k: Seq<char>)
    ensures
        clip_map(entries).contains_key(k) <==> exists|i: int|
            0 <= i < entries.len() && (#[trigger] entries[i]).0@ == k,
    decreases entries.len(),
{
    if entries.len() > 0 {
        lemma_clip_map_contains(entries.drop_last(), k);
        if entries.last().0@ == k {
            assert((entries[entries.len() - 1]).0@ == k);
        } else {
            if clip_map(entries).contains_key(k) {
                let i = choose|i: int|
                    0 <= i < entries.drop_last().len() && (#[trigger] entries.drop_last()[i]).0@
                        == k;
                assert(entries.drop_last()[i] == entries[i]);
                assert((entries[i]).0@ == k);
            }
            if exists|i: int| 0 <= i < entries.len() && (#[trigger] entries[i]).0@ == k {
                let i = choose|i: int| 0 <= i < entries.len() && (#[trigger] entries[i]).0@ == k;
                assert(i < entries.len() - 1);
                assert(entries.drop_last()[i] == entries[i]);
                assert((entries.drop_last()[i]).0@ == k);
            }
        }
    }
}

/// Under unique names, the map sends each entry's name to that entry's
/// clip.
pub proof fn lemma_clip_map_value(entries: Seq<(String, SpriteAnimData)>, i: int)
    requires
        keys_unique(entries),
        0 <= i < entries.len(),
    ensures
        clip_map(entries).contains_key((entries[i]).0@),
        clip_map(entries)[(entries[i]).0@] == (entries[i]).1@,
    decreases entries.len(),
{
    if i < entries.len() - 1 {
        lemma_keys_unique_drop_last(entries);
        lemma_clip_map_value(entries.drop_last(), i);
        assert(entries.drop_last()[i] == entries[i]);
        assert((entries[i]).0@ != (entries[entries.len() - 1]).0@);
    }
}

/// Under unique names, replacing the entry that bears a name means
/// inserting into the map.
pub proof fn lemma_clip_map_update(
    entries: Seq<(String, SpriteAnimData)>,
    i: int,
    v: (String, SpriteAnimData),
)
    requires
        keys_unique(entries),
        0 <= i < entries.len(),
        v.0@ == (entries[i]).0@,
    ensures
        clip_map(entries.update(i, v)) == clip_map(entries).insert(v.0@, v.1@),
    decreases entries.len(),
{
    let upd = entries.update(i, v);
    if i == entries.len() - 1 {
        assert(upd.drop_last() =~= entries.drop_last());
        assert(upd.last() == v);
        assert(clip_map(upd) =~= clip_map(entries).insert(v.0@, v.1@));
    } else {
        lemma_keys_unique_drop_last(entries);
        lemma_clip_map_update(entries.drop_last(), i, v);
        assert(entries.drop_last()[i] == entries[i]);
        assert(upd.drop_last() =~= entries.drop_last().update(i, v));
        assert(upd.last() == entries.last());
        assert((entries[i]).0@ != (entries[entries.len() - 1]).0@);
        assert(clip_map(upd) =~= clip_map(entries).insert(v.0@, v.1@));
    }
}

/// The mathematical value of a controller.
pub struct ControllerModel {
    pub collection: Map<Seq<char>, ClipModel>,
    pub current: ClipModel,
    pub fps: int,
    pub tick_interval: int,
    pub accumulated: int,
}

impl ControllerModel {
    /// The collection always holds the fallback entry, the playing clip has
    /// a valid cursor, the frame rate is positive, and the tick interval is
    /// the duration of one frame at that rate.
    pub open spec fn inv(self) -> bool {
        &&& self.collection.contains_key("Default"@)
        &&& self.current.inv()
        &&& 1 <= self.fps
        &&& self.tick_interval == MICROS_PER_SECOND as int / self.fps
    }
}

/// Sprite animation controller used to play animations from a sprite
/// sheet: it owns the clip collection, the playing clip, and the timer.
#[derive(Debug)]
pub struct SpriteAnimController {
    pub collection: Vec<(String, SpriteAnimData)>,
    pub current: SpriteAnimData,
    pub fps: u32,
    pub tick_interval: u64,
    pub accumulated: u64,
}

impl View for SpriteAnimController {
    type V = ControllerModel;

    open spec fn view(&self) -> ControllerModel {
        ControllerModel {
            collection: clip_map(self.collection@),
            current: self.current@,
            fps: self.fps as int,
            tick_interval: self.tick_interval as int,
            accumulated: self.accumulated as int,
        }
    }
}

/// Searches the entry list for a name; `None` means no entry bears it.
fn find_clip(entries: &Vec<(String, SpriteAnimData)>, name: &String) -> (r: Option<usize>)
    ensures
        r matches Some(i) ==> i < entries@.len() && (entries@[i as int]).0@ == name@,
        r is None ==> forall|i: int| 0 <= i < entries@.len() ==> (#[trigger] entries@[i]).0@ != name@,
{
    let n = entries.len();
    let mut i: usize = 0;
    while i < n
        invariant
            n == entries@.len(),
            i <= n,
            forall|j: int| 0 <= j < i ==> (#[trigger] entries@[j]).0@ != name@,
        decreases n - i,
    {
        let pair: &(String, SpriteAnimData) = &entries[i];
        if pair.0 == *name {
            return Some(i);
        }
        i = i + 1;
    }
    None
}

impl SpriteAnimController {
    /// The entry names are unique and the abstract state satisfies its
    /// invariant.
    pub open spec fn wf(self) -> bool {
        &&& keys_unique(self.collection@)
        &&& self@.inv()
    }

    /// Creates a new controller whose collection holds the synthesized
    /// "Default" clip, playing that clip, at 4 frames per second.
    pub fn new() -> (r: Self)
        ensures
            r.wf(),
            r@.collection == Map::<Seq<char>, ClipModel>::empty().insert(
                "Default"@,
                ClipModel::default_clip(),
            ),
            r@.current == ClipModel::default_clip(),
            r@.fps == 4,
            r@.tick_interval == MICROS_PER_SECOND as int / 4,
            r@.accumulated == 0,
    {
        let default = SpriteAnimData::default();
        let mut collection: Vec<(String, SpriteAnimData)> = Vec::new();
        collection.push(("Default".to_owned(), default.clone()));
        let r = SpriteAnimController {
            collection,
            current: default,
            fps: 4,
            tick_interval: MICROS_PER_SECOND / 4,
            accumulated: 0,
        };
        proof {
            reveal_with_fuel(clip_map, 2);
            let entries = r.collection@;
            assert(entries.drop_last() =~= Seq::<(String, SpriteAnimData)>::empty());
            assert(entries.last().0@ == "Default"@);
            assert(entries.last().1@ == ClipModel::default_clip());
            assert(clip_map(entries.drop_last()) =~= Map::<Seq<char>, ClipModel>::empty());
            assert(r@.collection =~= Map::<Seq<char>, ClipModel>::empty().insert(
                "Default"@,
                ClipModel::default_clip(),
            ));
        }
        r
    }

    /// Stores a clip under the given name, replacing any entry that bears
    /// it, and changes nothing else.
    fn insert_clip(&mut self, key: String, anim_data: SpriteAnimData)
        requires
            keys_unique(old(self).collection@),
        ensures
            keys_unique(final(self).collection@),
            final(self)@.collection == old(self)@.collection.insert(key@, anim_data@),
            final(self).current == old(self).current,
            final(self).fps == old(self).fps,
            final(self).tick_interval == old(self).tick_interval,
            final(self).accumulated == old(self).accumulated,
    {
        match find_clip(&self.collection, &key) {
            Some(i) => {
                let ghost entries = self.collection@;
                self.collection[i] = (key, anim_data);
                proof {
                    let upd = self.collection@;
                    assert(upd == entries.update(i as int, upd[i as int]));
                    lemma_clip_map_update(entries, i as int, upd[i as int]);
                    assert forall|a: int, b: int| 0 <= a < b < upd.len() implies (
                    #[trigger] upd[a]).0@ != (#[trigger] upd[b]).0@ by {
                        if a != i && b != i {
                            assert(upd[a] == entries[a]);
                            assert(upd[b] == entries[b]);
                        } else if a == i {
                            assert(upd[b] == entries[b]);
                            assert((entries[a]).0@ != (entries[b]).0@);
                        } else {
                            assert(upd[a] == entries[a]);
                            assert((entries[a]).0@ != (entries[b]).0@);
                        }
                    }
                }
            },
            None => {
                let ghost entries = self.collection@;
                self.collection.push((key, anim_data));
                proof {
                    let pushed = self.collection@;
                    assert(pushed.drop_last() =~= entries);
                    assert forall|a: int, b: int| 0 <= a < b < pushed.len() implies (
                    #[trigger] pushed[a]).0@ != (#[trigger] pushed[b]).0@ by {
                        if b < pushed.len() - 1 {
                            assert(pushed[a] == entries[a]);
                            assert(pushed[b] == entries[b]);
                        } else {
                            assert(pushed[a] == entries[a]);
                        }
                    }
                }
            },
        }
    }

    /// Stores a clip as the fallback: the entry under the reserved name
    /// "Default" that an unknown selection falls back to.
    pub fn with_default_anim(self, anim_data: SpriteAnimData) -> (r: Self)
        requires
            self.wf(),
        ensures
            r.wf(),
            r@.collection == self@.collection.insert("Default"@, anim_data@),
            r@.current == self@.current,
            r@.fps == self@.fps,
            r@.tick_interval == self@.tick_interval,
            r@.accumulated == self@.accumulated,
    {
        let mut s = self;
        s.insert_clip("Default".to_owned(), anim_data);
        s
    }

    /// Adds a clip to the collection on instantiation, under the clip's own
    /// name.
    pub fn with_anim(self, anim_data: SpriteAnimData) -> (r: Self)
        requires
            self.wf(),
        ensures
            r.wf(),
            r@.collection == self@.collection.insert(anim_data@.name, anim_data@),
            r@.current == self@.current,
            r@.fps == self@.fps,
            r@.tick_interval == self@.tick_interval,
            r@.accumulated == self@.accumulated,
    {
        let mut s = self;
        let key = anim_data.name.clone();
        s.insert_clip(key, anim_data);
        s
    }

    /// Sets the frame rate on instantiation; the timer's accumulated time
    /// is kept.
    pub fn with_fps(self, fps: u32) -> (r: Self)
        requires
            self.wf(),
            fps >= 1,
        ensures
            r.wf(),
            r@.fps == fps as int,
            r@.tick_interval == MICROS_PER_SECOND as int / fps as int,
            r@.collection == self@.collection,
            r@.current == self@.current,
            r@.accumulated == self@.accumulated,
    {
        let mut s = self;
        s.set_fps(fps);
        s
    }

    /// Sets the frame rate: the tick interval becomes the duration of one
    /// frame at the new rate. The accumulated time and the playing clip are
    /// untouched, so a rate change neither resets nor skips playback.
    pub fn set_fps(&mut self, fps: u32)
        requires
            old(self).wf(),
            fps >= 1,
        ensures
            final(self).wf(),
            final(self)@.fps == fps as int,
            final(self)@.tick_interval == MICROS_PER_SECOND as int / fps as int,
            final(self)@.collection == old(self)@.collection,
            final(self)@.current == old(self)@.current,
            final(self)@.accumulated == old(self)@.accumulated,
    {
        self.fps = fps;
        self.tick_interval = MICROS_PER_SECOND / (fps as u64);
    }

    /// Selects the clip to play. A known name succeeds and the playing clip
    /// becomes a fresh copy of that entry; an unknown name fails with
    /// `DoesNotExist` and the playing clip becomes a fresh copy of the
    /// fallback entry instead, so the controller is playable either way.
    pub fn set_current_animation(&mut self, anim_name: &str) -> (r: Result<(), SpriteAnimError>)
        requires
            old(self).wf(),
        ensures
            final(self).wf(),
            final(self)@.collection == old(self)@.collection,
            final(self)@.fps == old(self)@.fps,
            final(self)@.tick_interval == old(self)@.tick_interval,
            final(self)@.accumulated == old(self)@.accumulated,
            old(self)@.collection.contains_key(anim_name@) ==> (r is Ok && final(self)@.current
                == old(self)@.collection[anim_name@].restarted()),
            !old(self)@.collection.contains_key(anim_name@) ==> (r matches Err(
                SpriteAnimError::DoesNotExist(n),
            ) && n@ == anim_name@ && final(self)@.current
                == old(self)@.collection["Default"@].restarted()),
    {
        let name_string: String = anim_name.to_owned();
        match find_clip(&self.collection, &name_string) {
            Some(i) => {
                proof {
                    lemma_clip_map_value(self.collection@, i as int);
                }
                let pair: &(String, SpriteAnimData) = &self.collection[i];
                let mut copy = pair.1.clone();
                copy.index = 0;
                copy.forward = true;
                self.current = copy;
                Ok(())
            },
            None => {
                proof {
                    lemma_clip_map_contains(self.collection@, name_string@);
                }
                let default_key: String = "Default".to_owned();
                match find_clip(&self.collection, &default_key) {
                    Some(j) => {
                        proof {
                            lemma_clip_map_value(self.collection@, j as int);
                        }
                        let pair: &(String, SpriteAnimData) = &self.collection[j];
                        let mut copy = pair.1.clone();
                        copy.index = 0;
                        copy.forward = true;
                        self.current = copy;
                        Err(SpriteAnimError::DoesNotExist(name_string))
                    },
                    None => {
                        proof {
                            lemma_clip_map_contains(self.collection@, "Default"@);
                            assert(false);
                        }
                        unreached()
                    },
                }
            },
        }
    }

    /// Accumulates elapsed time; when it reaches the tick interval, exactly
    /// one interval's worth is consumed and the playing clip is stepped
    /// once — never more than one step per call, however large the spike.
    /// `Some(Ok(frame))` is the frame to display; `Some(Err(..))` reports
    /// an empty playing clip, and no frame should be displayed; `None`
    /// means the timer has not fired.
    pub fn tick(&mut self, elapsed_micros: u64) -> (r: Option<Result<usize, SpriteAnimError>>)
        requires
            old(self).wf(),
            old(self)@.accumulated + elapsed_micros <= u64::MAX,
        ensures
            final(self).wf(),
            final(self)@.collection == old(self)@.collection,
            final(self)@.fps == old(self)@.fps,
            final(self)@.tick_interval == old(self)@.tick_interval,
            old(self)@.accumulated + elapsed_micros < old(self)@.tick_interval ==> (r is None
                && final(self)@.accumulated == old(self)@.accumulated + elapsed_micros
                && final(self)@.current == old(self)@.current),
            old(self)@.accumulated + elapsed_micros >= old(self)@.tick_interval ==> (
                final(self)@.accumulated
                    == old(self)@.accumulated + elapsed_micros - old(self)@.tick_interval
                && final(self)@.current == old(self)@.current.advanced()
                && (old(self)@.current.frames.len() == 0 ==> (r matches Some(res)
                    && res matches Err(SpriteAnimError::NoFrames(n))
                    && n@ == old(self)@.current.name))
                && (old(self)@.current.frames.len() > 0 ==> (r matches Some(res)
                    && res matches Ok(f) && f == old(self)@.current.current_frame()))),
    {
        self.accumulated = self.accumulated + elapsed_micros;
        if self.accumulated >= self.tick_interval {
            self.accumulated = self.accumulated - self.tick_interval;
            Some(self.current.get_frame())
        } else {
            None
        }
    }
}

} // verus!
