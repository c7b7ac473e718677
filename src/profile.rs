//! Bluetooth profiles and small sets of them.
use vstd::prelude::*;

verus! {

/// The profiles that the media coordinator deals with.
#[derive(Clone, Copy, Debug, PartialEq, Eq, Structural, Hash)]
pub enum Profile {
    A2dpSink,
    A2dpSource,
    Hfp,
    AvrcpController,
    AvrcpTarget,
}

/// A set of profiles, one flag per profile.
#[derive(Clone, Copy, Debug, PartialEq, Eq, Structural)]
pub struct ProfileSet {
    pub a2dp_sink: bool,
    pub a2dp_source: bool,
    pub hfp: bool,
    pub avrcp_controller: bool,
    pub avrcp_target: bool,
}

/// The profiles that make a device an audio device.
pub open spec fn is_media_audio_profile(p: Profile) -> bool {
    p is A2dpSink || p is Hfp || p is AvrcpController
}

impl View for ProfileSet {
    type V = Set<Profile>;

    open spec fn view(&self) -> Set<Profile> {
        Set::new(|p: Profile| self.has(p))
    }
}

impl ProfileSet {
    pub open spec fn has(self, p: Profile) -> bool {
        match p {
            Profile::A2dpSink => self.a2dp_sink,
            Profile::A2dpSource => self.a2dp_source,
            Profile::Hfp => self.hfp,
            Profile::AvrcpController => self.avrcp_controller,
            Profile::AvrcpTarget => self.avrcp_target,
        }
    }

    pub open spec fn spec_empty() -> ProfileSet {
        ProfileSet {
            a2dp_sink: false,
            a2dp_source: false,
            hfp: false,
            avrcp_controller: false,
            avrcp_target: false,
        }
    }

    pub open spec fn spec_is_empty(self) -> bool {
        !self.a2dp_sink && !self.a2dp_source && !self.hfp && !self.avrcp_controller
            && !self.avrcp_target
    }

    /// Exactly the AVRCP controller profile.
    pub open spec fn spec_is_avrcp_only(self) -> bool {
        !self.a2dp_sink && !self.a2dp_source && !self.hfp && self.avrcp_controller
            && !self.avrcp_target
    }

    pub open spec fn spec_with(self, p: Profile, on: bool) -> ProfileSet {
        match p {
            Profile::A2dpSink => ProfileSet { a2dp_sink: on, ..self },
            Profile::A2dpSource => ProfileSet { a2dp_source: on, ..self },
            Profile::Hfp => ProfileSet { hfp: on, ..self },
            Profile::AvrcpController => ProfileSet { avrcp_controller: on, ..self },
            Profile::AvrcpTarget => ProfileSet { avrcp_target: on, ..self },
        }
    }

    pub open spec fn spec_difference(self, o: ProfileSet) -> ProfileSet {
        ProfileSet {
            a2dp_sink: self.a2dp_sink && !o.a2dp_sink,
            a2dp_source: self.a2dp_source && !o.a2dp_source,
            hfp: self.hfp && !o.hfp,
            avrcp_controller: self.avrcp_controller && !o.avrcp_controller,
            avrcp_target: self.avrcp_target && !o.avrcp_target,
        }
    }

    /// Only the media audio profiles of `self`.
    pub open spec fn spec_media_only(self) -> ProfileSet {
        ProfileSet { a2dp_source: false, avrcp_target: false, ..self }
    }

    pub fn empty() -> (r: ProfileSet)
        ensures
            r == ProfileSet::spec_empty(),
            r@ == Set::<Profile>::empty(),
    {
        let r = ProfileSet {
            a2dp_sink: false,
            a2dp_source: false,
            hfp: false,
            avrcp_controller: false,
            avrcp_target: false,
        };
        assert(r@ =~= Set::<Profile>::empty());
        r
    }

    pub fn contains(&self, p: Profile) -> (r: bool)
        ensures
            r == self.has(p),
            r == self@.contains(p),
    {
        match p {
            Profile::A2dpSink => self.a2dp_sink,
            Profile::A2dpSource => self.a2dp_source,
            Profile::Hfp => self.hfp,
            Profile::AvrcpController => self.avrcp_controller,
            Profile::AvrcpTarget => self.avrcp_target,
        }
    }

    pub fn is_empty(&self) -> (r: bool)
        ensures
            r == self.spec_is_empty(),
            r == (self@ == Set::<Profile>::empty()),
    {
        let r = !self.a2dp_sink && !self.a2dp_source && !self.hfp && !self.avrcp_controller
            && !self.avrcp_target;
        if r {
            assert(self@ =~= Set::<Profile>::empty());
        } else {
            assert(self@ != Set::<Profile>::empty()) by {
                if self.a2dp_sink {
                    assert(self@.contains(Profile::A2dpSink));
                } else if self.a2dp_source {
                    assert(self@.contains(Profile::A2dpSource));
                } else if self.hfp {
                    assert(self@.contains(Profile::Hfp));
                } else if self.avrcp_controller {
                    assert(self@.contains(Profile::AvrcpController));
                } else {
                    assert(self@.contains(Profile::AvrcpTarget));
                }
            }
        }
        r
    }

    /// Exactly the AVRCP controller profile.
    pub fn is_avrcp_only(&self) -> (r: bool)
        ensures
            r == self.spec_is_avrcp_only(),
    {
        !self.a2dp_sink && !self.a2dp_source && !self.hfp && self.avrcp_controller
            && !self.avrcp_target
    }

    pub fn set(&mut self, p: Profile, on: bool)
        ensures
            *final(self) == old(self).spec_with(p, on),
            on ==> final(self)@ == old(self)@.insert(p),
            !on ==> final(self)@ == old(self)@.remove(p),
    {
        let ghost before = *self;
        match p {
            Profile::A2dpSink => self.a2dp_sink = on,
            Profile::A2dpSource => self.a2dp_source = on,
            Profile::Hfp => self.hfp = on,
            Profile::AvrcpController => self.avrcp_controller = on,
            Profile::AvrcpTarget => self.avrcp_target = on,
        }
        if on {
            assert(self@ =~= before@.insert(p));
        } else {
            assert(self@ =~= before@.remove(p));
        }
    }

    pub fn difference(&self, o: &ProfileSet) -> (r: ProfileSet)
        ensures
            r == self.spec_difference(*o),
            r@ == self@.difference(o@),
    {
        let r = ProfileSet {
            a2dp_sink: self.a2dp_sink && !o.a2dp_sink,
            a2dp_source: self.a2dp_source && !o.a2dp_source,
            hfp: self.hfp && !o.hfp,
            avrcp_controller: self.avrcp_controller && !o.avrcp_controller,
            avrcp_target: self.avrcp_target && !o.avrcp_target,
        };
        assert(r@ =~= self@.difference(o@));
        r
    }

    /// The media audio profiles of `self`, the others left out.
    pub fn media_only(&self) -> (r: ProfileSet)
        ensures
            r == self.spec_media_only(),
            r@ == self@.filter(|p: Profile| is_media_audio_profile(p)),
    {
        let r = ProfileSet { a2dp_source: false, avrcp_target: false, ..*self };
        assert(r@ =~= self@.filter(|p: Profile| is_media_audio_profile(p)));
        r
    }
}

} // verus!
