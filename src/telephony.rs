//! The telephony side of the audio gateway: phone state, the list of calls
//! that headsets query, and the call commands that they send.
use vstd::prelude::*;
use vstd::utf8::encode_utf8;

use crate::events::CallHoldCommand;

verus! {

/// Calls beyond this many are refused, so that every call index fits an `i32`.
pub const MAX_CALLS: usize = 0x7fff_fff0;

#[derive(Clone, Copy, Debug, PartialEq, Eq, Structural)]
pub enum CallState {
    Idle,
    Incoming,
    Dialing,
    Alerting,
    Active,
    Held,
}

#[derive(Clone, Copy, Debug, PartialEq, Eq, Structural)]
pub struct PhoneState {
    pub num_active: u32,
    pub num_held: u32,
    pub state: CallState,
}

#[derive(Clone, Copy, Debug, PartialEq, Eq, Structural)]
pub struct TelephonyDeviceStatus {
    pub network_available: bool,
    pub roaming: bool,
    /// 0 to 5.
    pub signal_strength: i32,
    /// 0 to 5.
    pub battery_level: i32,
}

#[derive(Clone, Debug)]
pub struct CallInfo {
    pub index: i32,
    pub dir_incoming: bool,
    pub state: CallState,
    pub number: String,
}

/// A call as the contracts see it.
pub struct CallView {
    pub index: i32,
    pub dir_incoming: bool,
    pub state: CallState,
    pub number: Seq<char>,
}

impl View for CallInfo {
    type V = CallView;

    open spec fn view(&self) -> CallView {
        CallView {
            index: self.index,
            dir_incoming: self.dir_incoming,
            state: self.state,
            number: self.number@,
        }
    }
}

impl CallInfo {
    pub fn duplicate(&self) -> (r: CallInfo)
        ensures
            r@ == self@,
    {
        CallInfo {
            index: self.index,
            dir_incoming: self.dir_incoming,
            state: self.state,
            number: self.number.clone(),
        }
    }
}

impl TelephonyDeviceStatus {
    /// Network available, not roaming, full signal and battery.
    pub fn new() -> (r: TelephonyDeviceStatus)
        ensures
            r == (TelephonyDeviceStatus {
                network_available: true,
                roaming: false,
                signal_strength: 5,
                battery_level: 5,
            }),
    {
        TelephonyDeviceStatus {
            network_available: true,
            roaming: false,
            signal_strength: 5,
            battery_level: 5,
        }
    }
}

pub open spec fn calls_view(v: Seq<CallInfo>) -> Seq<CallView> {
    v.map_values(|c: CallInfo| c@)
}

/// Number of calls in state `st`.
pub open spec fn count_state(s: Seq<CallView>, st: CallState) -> nat
    decreases s.len(),
{
    if s.len() == 0 {
        0
    } else {
        count_state(s.drop_last(), st) + if s.last().state == st {
            1nat
        } else {
            0nat
        }
    }
}

/// Number of calls with index `v`.
pub open spec fn count_index(s: Seq<CallView>, v: int) -> nat
    decreases s.len(),
{
    if s.len() == 0 {
        0
    } else {
        count_index(s.drop_last(), v) + if s.last().index == v {
            1nat
        } else {
            0nat
        }
    }
}

/// Number of calls with an index below `v`.
pub open spec fn count_below(s: Seq<CallView>, v: int) -> nat
    decreases s.len(),
{
    if s.len() == 0 {
        0
    } else {
        count_below(s.drop_last(), v) + if s.last().index < v {
            1nat
        } else {
            0nat
        }
    }
}

pub open spec fn index_used(s: Seq<CallView>, v: int) -> bool {
    exists|i: int| 0 <= i < s.len() && s[i].index == v
}

/// The smallest positive index that no call uses.
pub open spec fn is_min_free_index(s: Seq<CallView>, v: int) -> bool {
    &&& v >= 1
    &&& !index_used(s, v)
    &&& forall|u: int| 1 <= u < v ==> index_used(s, u)
}

pub open spec fn min_free_index(s: Seq<CallView>) -> int {
    choose|v: int| is_min_free_index(s, v)
}

pub open spec fn is_ringing(st: CallState) -> bool {
    st is Incoming || st is Dialing
}

/// A state that a removal with these flags takes out.
pub open spec fn drops(st: CallState, active: bool, ringing: bool, held: bool) -> bool {
    (active && st is Active) || (ringing && is_ringing(st)) || (held && st is Held)
}

/// The calls without those whose state the flags select, in their order.
pub open spec fn without_calls(s: Seq<CallView>, active: bool, ringing: bool, held: bool) -> Seq<
    CallView,
>
    decreases s.len(),
{
    if s.len() == 0 {
        s
    } else {
        let rest = without_calls(s.drop_last(), active, ringing, held);
        if drops(s.last().state, active, ringing, held) {
            rest
        } else {
            rest.push(s.last())
        }
    }
}

/// The calls left after hanging up: no active, incoming or dialing call.
pub open spec fn hung_up(s: Seq<CallView>) -> Seq<CallView> {
    without_calls(s, true, true, false)
}

/// The calls left after releasing the held ones.
pub open spec fn held_released(s: Seq<CallView>) -> Seq<CallView> {
    without_calls(s, false, false, true)
}

/// The calls left after releasing the active ones.
pub open spec fn active_released(s: Seq<CallView>) -> Seq<CallView> {
    without_calls(s, true, false, false)
}

pub open spec fn with_state(c: CallView, st: CallState) -> CallView {
    CallView { state: st, ..c }
}

/// Call `i` is the first incoming or dialing one.
pub open spec fn first_ringing(s: Seq<CallView>, i: int) -> bool {
    is_ringing(s[i].state) && forall|j: int| 0 <= j < i ==> !is_ringing(#[trigger] s[j].state)
}

/// Call `i` is the first held one.
pub open spec fn first_held(s: Seq<CallView>, i: int) -> bool {
    s[i].state is Held && forall|j: int| 0 <= j < i ==> !((#[trigger] s[j].state) is Held)
}

/// The first incoming or dialing call becomes active.
pub open spec fn answered(s: Seq<CallView>) -> Seq<CallView> {
    Seq::new(
        s.len(),
        |i: int|
            if first_ringing(s, i) {
                with_state(s[i], CallState::Active)
            } else {
                s[i]
            },
    )
}

/// The first held call becomes active.
pub open spec fn first_held_promoted(s: Seq<CallView>) -> Seq<CallView> {
    Seq::new(
        s.len(),
        |i: int|
            if first_held(s, i) {
                with_state(s[i], CallState::Active)
            } else {
                s[i]
            },
    )
}

/// Active calls are held and the first call that was held becomes active.
pub open spec fn swapped(s: Seq<CallView>) -> Seq<CallView> {
    Seq::new(
        s.len(),
        |i: int|
            if s[i].state is Active {
                with_state(s[i], CallState::Held)
            } else if first_held(s, i) {
                with_state(s[i], CallState::Active)
            } else {
                s[i]
            },
    )
}

pub open spec fn synthetic_call() -> CallView {
    CallView { index: 1, dir_incoming: false, state: CallState::Active, number: Seq::empty() }
}

/// The number that a dial command asks for: the last number for an empty
/// one, the memory slot for one starting with `>`, else the number itself.
pub open spec fn dial_target(
    number: Seq<char>,
    last: Option<Seq<char>>,
    memory: Option<Seq<char>>,
) -> Option<Seq<char>> {
    if encode_utf8(number).len() == 0 {
        last
    } else if encode_utf8(number)[0] == 62 {
        memory
    } else {
        Some(number)
    }
}

pub open spec fn opt_view(o: Option<String>) -> Option<Seq<char>> {
    match o {
        Some(s) => Some(s@),
        None => None,
    }
}

/// Phone state, call list and the numbers that a headset may redial.
pub struct Telephony {
    pub telephony_device_status: TelephonyDeviceStatus,
    pub phone_state: PhoneState,
    pub call_list: Vec<CallInfo>,
    /// When false, the calls are not the phone's but stand-ins that keep a
    /// headset's audio path open.
    pub phone_ops_enabled: bool,
    pub memory_dialing_number: Option<String>,
    pub last_dialing_number: Option<String>,
}

impl Telephony {
    pub open spec fn calls(&self) -> Seq<CallView> {
        calls_view(self.call_list@)
    }

    #[verifier::opaque]
    pub open spec fn wf(&self) -> bool {
        let s = self.calls();
        let ps = self.phone_state;
        &&& s.len() < MAX_CALLS
        &&& forall|v: int| #[trigger] count_index(s, v) <= 1
        &&& forall|v: int| v < 1 ==> #[trigger] count_index(s, v) == 0
        &&& ps.num_active == count_state(s, CallState::Active)
        &&& ps.num_held == count_state(s, CallState::Held)
        &&& ps.num_active <= 1
        &&& ps.state is Idle ==> count_state(s, CallState::Incoming) == 0 && count_state(
            s,
            CallState::Dialing,
        ) == 0
        &&& ps.state is Incoming ==> count_state(s, CallState::Incoming) == 1 && count_state(
            s,
            CallState::Dialing,
        ) == 0 && ps.num_active == 0
        &&& ps.state is Dialing ==> count_state(s, CallState::Dialing) == 1 && count_state(
            s,
            CallState::Incoming,
        ) == 0 && ps.num_active == 0
        &&& ps.state is Idle || ps.state is Incoming || ps.state is Dialing
        &&& !self.phone_ops_enabled ==> ps.state is Idle && ps.num_held == 0
    }

    /// Another call can be placed or can come in.
    pub open spec fn call_may_start(&self) -> bool {
        &&& self.phone_ops_enabled
        &&& self.phone_state.state is Idle
        &&& self.phone_state.num_active == 0
        &&& self.calls().len() + 1 < MAX_CALLS
    }

    /// Everything but the call list and the phone state is as in `o`.
    pub open spec fn same_settings(&self, o: &Telephony) -> bool {
        &&& self.telephony_device_status == o.telephony_device_status
        &&& self.phone_ops_enabled == o.phone_ops_enabled
        &&& self.memory_dialing_number == o.memory_dialing_number
        &&& self.last_dialing_number == o.last_dialing_number
    }

    pub open spec fn unchanged(&self, o: &Telephony) -> bool {
        &&& self.same_settings(o)
        &&& self.phone_state == o.phone_state
        &&& self.calls() == o.calls()
    }

    pub fn new() -> (r: Telephony)
        ensures
            r.wf(),
            r.telephony_device_status == (TelephonyDeviceStatus {
                network_available: true,
                roaming: false,
                signal_strength: 5,
                battery_level: 5,
            }),
            r.phone_state == (PhoneState { num_active: 0, num_held: 0, state: CallState::Idle }),
            r.calls() == Seq::<CallView>::empty(),
            !r.phone_ops_enabled,
            r.memory_dialing_number is None,
            r.last_dialing_number is None,
    {
        reveal(Telephony::wf);
        let r = Telephony {
            telephony_device_status: TelephonyDeviceStatus::new(),
            phone_state: PhoneState { num_active: 0, num_held: 0, state: CallState::Idle },
            call_list: Vec::new(),
            phone_ops_enabled: false,
            memory_dialing_number: None,
            last_dialing_number: None,
        };
        assert(r.calls() =~= Seq::<CallView>::empty());
        r
    }

    /// The smallest positive index that no call in the list uses.
    pub fn new_call_index(&self) -> (r: i32)
        requires
            self.wf(),
        ensures
            is_min_free_index(self.calls(), r as int),
            r == min_free_index(self.calls()),
            r as int <= self.calls().len() + 1,
    {
        reveal(Telephony::wf);
        let ghost s = self.calls();
        let mut idx: i32 = 1;
        proof {
            lemma_count_below_le_len(s, 1);
        }
        loop
            invariant
                s == self.calls(),
                self.wf(),
                s.len() < MAX_CALLS,
                1 <= idx,
                idx as int <= s.len() + 1,
                count_below(s, idx as int) >= idx - 1,
                forall|u: int| 1 <= u < idx ==> index_used(s, u),
            decreases s.len() + 1 - idx,
        {
            let mut used = false;
            let mut i: usize = 0;
            while i < self.call_list.len()
                invariant
                    s == self.calls(),
                    i <= s.len(),
                    used ==> index_used(s, idx as int),
                    !used ==> forall|j: int| 0 <= j < i ==> s[j].index != idx,
                decreases s.len() - i,
            {
                if self.call_list[i].index == idx {
                    assert(s[i as int].index == idx);
                    used = true;
                }
                i = i + 1;
            }
            if !used {
                proof {
                    assert(is_min_free_index(s, idx as int));
                    lemma_min_free_unique(s, idx as int);
                }
                return idx;
            }
            proof {
                lemma_count_below_step(s, idx as int);
                lemma_count_index_used(s, idx as int);
                lemma_count_below_le_len(s, idx + 1);
            }
            idx = idx + 1;
        }
    }

    /// Copies the calls, without those whose state is selected by the flags.
    fn calls_without(&self, active: bool, ringing: bool, held: bool) -> (r: Vec<CallInfo>)
        ensures
            calls_view(r@) == without_calls(self.calls(), active, ringing, held),
    {
        let ghost s = self.calls();
        let mut out: Vec<CallInfo> = Vec::new();
        let mut i: usize = 0;
        while i < self.call_list.len()
            invariant
                s == self.calls(),
                i <= s.len(),
                calls_view(out@) == without_calls(s.take(i as int), active, ringing, held),
            decreases s.len() - i,
        {
            let st = self.call_list[i].state;
            let dropped = (active && st == CallState::Active) || (ringing && (st
                == CallState::Incoming || st == CallState::Dialing)) || (held && st
                == CallState::Held);
            let ghost before_out = calls_view(out@);
            proof {
                assert(s.take(i + 1).drop_last() =~= s.take(i as int));
                assert(s.take(i + 1).last() == s[i as int]);
                assert(dropped == drops(s[i as int].state, active, ringing, held));
            }
            if !dropped {
                let c = self.call_list[i].duplicate();
                out.push(c);
                assert(calls_view(out@) =~= before_out.push(s[i as int]));
            }
            i = i + 1;
        }
        assert(s.take(s.len() as int) =~= s);
        out
    }

    /// A copy of the call list.
    pub fn copy_calls(&self) -> (r: Vec<CallInfo>)
        ensures
            calls_view(r@) == self.calls(),
    {
        let mut out: Vec<CallInfo> = Vec::new();
        let mut i: usize = 0;
        while i < self.call_list.len()
            invariant
                i <= self.call_list@.len(),
                calls_view(out@) == self.calls().take(i as int),
            decreases self.call_list@.len() - i,
        {
            let c = self.call_list[i].duplicate();
            let ghost before = calls_view(out@);
            assert(self.calls()[i as int] == c@);
            out.push(c);
            assert(calls_view(out@) =~= before.push(c@));
            assert(self.calls().take(i + 1) =~= self.calls().take(i as int).push(c@));
            i = i + 1;
        }
        assert(self.calls().take(self.call_list@.len() as int) =~= self.calls());
        out
    }

    /// Takes an incoming call from `number`.
    pub fn incoming_call_impl(&mut self, number: String) -> (r: bool)
        requires
            old(self).wf(),
        ensures
            final(self).wf(),
            r == old(self).call_may_start(),
            r ==> final(self).calls() == old(self).calls().push(
                CallView {
                    index: min_free_index(old(self).calls()) as i32,
                    dir_incoming: true,
                    state: CallState::Incoming,
                    number: number@,
                },
            ) && final(self).phone_state == (PhoneState {
                state: CallState::Incoming,
                ..old(self).phone_state
            }) && final(self).same_settings(old(self)),
            !r ==> final(self).unchanged(old(self)),
    {
        reveal(Telephony::wf);
        if !self.phone_ops_enabled || self.phone_state.state != CallState::Idle
            || self.phone_state.num_active > 0 || self.call_list.len() + 1 >= MAX_CALLS {
            return false;
        }
        self.add_call(number, true, CallState::Incoming);
        self.phone_state.state = CallState::Incoming;
        true
    }

    /// Places a call to `number`.
    pub fn dialing_call_impl(&mut self, number: String) -> (r: bool)
        requires
            old(self).wf(),
        ensures
            final(self).wf(),
            r == old(self).call_may_start(),
            r ==> final(self).calls() == old(self).calls().push(
                CallView {
                    index: min_free_index(old(self).calls()) as i32,
                    dir_incoming: false,
                    state: CallState::Dialing,
                    number: number@,
                },
            ) && final(self).phone_state == (PhoneState {
                state: CallState::Dialing,
                ..old(self).phone_state
            }) && final(self).same_settings(old(self)),
            !r ==> final(self).unchanged(old(self)),
    {
        reveal(Telephony::wf);
        if !self.phone_ops_enabled || self.phone_state.state != CallState::Idle
            || self.phone_state.num_active > 0 || self.call_list.len() + 1 >= MAX_CALLS {
            return false;
        }
        self.add_call(number, false, CallState::Dialing);
        self.phone_state.state = CallState::Dialing;
        true
    }

    fn add_call(&mut self, number: String, dir_incoming: bool, state: CallState)
        requires
            old(self).wf(),
            old(self).call_may_start(),
            state is Incoming || state is Dialing,
        ensures
            final(self).calls() == old(self).calls().push(
                CallView {
                    index: min_free_index(old(self).calls()) as i32,
                    dir_incoming,
                    state,
                    number: number@,
                },
            ),
            final(self).phone_state == old(self).phone_state,
            final(self).same_settings(old(self)),
            ({
                let t = Telephony {
                    phone_state: PhoneState { state, ..old(self).phone_state },
                    ..*final(self)
                };
                t.wf()
            }),
    {
        reveal(Telephony::wf);
        let ghost s = self.calls();
        let index = self.new_call_index();
        let c = CallInfo { index, dir_incoming, state, number };
        let ghost cv = c@;
        self.call_list.push(c);
        let ghost s2 = self.calls();
        assert(s2 =~= s.push(cv));
        assert(s2.drop_last() =~= s);
        assert forall|v: int| #[trigger] count_index(s2, v) <= 1 by {
            assert(count_index(s2, v) == count_index(s, v) + if v == index {
                1nat
            } else {
                0nat
            });
            if v == index {
                lemma_count_index_used(s, v);
            }
        }
        assert forall|v: int| v < 1 implies #[trigger] count_index(s2, v) == 0 by {
            assert(count_index(s, v) == 0);
        }
    }

    /// The ringing call is answered.
    pub fn answer_call_impl(&mut self) -> (r: bool)
        requires
            old(self).wf(),
        ensures
            final(self).wf(),
            r == (old(self).phone_ops_enabled && !(old(self).phone_state.state is Idle)),
            r ==> final(self).calls() == answered(old(self).calls()) && final(self).phone_state
                == (PhoneState {
                state: CallState::Idle,
                num_active: (old(self).phone_state.num_active + 1) as u32,
                ..old(self).phone_state
            }) && final(self).same_settings(old(self)),
            !r ==> final(self).unchanged(old(self)),
    {
        reveal(Telephony::wf);
        if !self.phone_ops_enabled || self.phone_state.state == CallState::Idle {
            return false;
        }
        let ghost s = self.calls();
        let ghost target = answered(s);
        let mut out: Vec<CallInfo> = Vec::new();
        let mut found = false;
        let mut i: usize = 0;
        while i < self.call_list.len()
            invariant
                s == self.calls(),
                s.len() == self.call_list@.len(),
                target == answered(s),
                target.len() == s.len(),
                i <= s.len(),
                calls_view(out@) == target.take(i as int),
                found <==> exists|j: int| 0 <= j < i && is_ringing(#[trigger] s[j].state),
                count_state(calls_view(out@), CallState::Active) == count_state(
                    s.take(i as int),
                    CallState::Active,
                ) + if found {
                    1int
                } else {
                    0int
                },
                count_state(calls_view(out@), CallState::Held) == count_state(
                    s.take(i as int),
                    CallState::Held,
                ),
                count_state(calls_view(out@), CallState::Incoming) + count_state(
                    calls_view(out@),
                    CallState::Dialing,
                ) + if found {
                    1int
                } else {
                    0int
                } == count_state(s.take(i as int), CallState::Incoming) + count_state(
                    s.take(i as int),
                    CallState::Dialing,
                ),
                forall|v: int| #[trigger]
                    count_index(calls_view(out@), v) == count_index(s.take(i as int), v),
            decreases s.len() - i,
        {
            let mut c = self.call_list[i].duplicate();
            assert(c@ == s[i as int]);
            let ghost before_out = calls_view(out@);
            proof {
                assert(s.take(i + 1).drop_last() =~= s.take(i as int));
            }
            if !found && (c.state == CallState::Incoming || c.state == CallState::Dialing) {
                assert(first_ringing(s, i as int));
                c.state = CallState::Active;
                found = true;
            } else {
                assert(!first_ringing(s, i as int));
            }
            assert(c@ == target[i as int]);
            out.push(c);
            proof {
                assert(calls_view(out@) =~= before_out.push(target[i as int]));
                assert(calls_view(out@) =~= target.take(i + 1));
                assert(calls_view(out@).drop_last() =~= before_out);
                assert(s.take(i + 1).last() == s[i as int]);
                assert forall|v: int| #[trigger]
                    count_index(calls_view(out@), v) == count_index(s.take(i + 1), v) by {
                    assert(count_index(calls_view(out@), v) == count_index(before_out, v) + if target[i as int].index == v {
                        1nat
                    } else {
                        0nat
                    });
                    assert(count_index(s.take(i + 1), v) == count_index(s.take(i as int), v) + if s[i as int].index == v {
                        1nat
                    } else {
                        0nat
                    });
                }
            }
            i = i + 1;
        }
        proof {
            assert(s.take(s.len() as int) =~= s);
            assert(target.take(s.len() as int) =~= target);
            lemma_count_state_pos(s, CallState::Incoming);
            lemma_count_state_pos(s, CallState::Dialing);
            lemma_count_state_pos(s, CallState::Held);
        }
        self.call_list = out;
        self.phone_state.state = CallState::Idle;
        self.phone_state.num_active = self.phone_state.num_active + 1;
        true
    }

    /// The active call, or the ringing one, is hung up.
    pub fn hangup_call_impl(&mut self) -> (r: bool)
        requires
            old(self).wf(),
        ensures
            final(self).wf(),
            r == (old(self).phone_ops_enabled && ((old(self).phone_state.state is Idle
                && old(self).phone_state.num_active > 0) || is_ringing(
                old(self).phone_state.state,
            ))),
            r ==> final(self).calls() == hung_up(old(self).calls()) && final(self).phone_state == (if old(self).phone_state.state is Idle {
                PhoneState {
                    num_active: (old(self).phone_state.num_active - 1) as u32,
                    ..old(self).phone_state
                }
            } else {
                PhoneState { state: CallState::Idle, ..old(self).phone_state }
            }) && final(self).same_settings(old(self)),
            !r ==> final(self).unchanged(old(self)),
    {
        reveal(Telephony::wf);
        if !self.phone_ops_enabled {
            return false;
        }
        let ghost s = self.calls();
        if self.phone_state.state == CallState::Idle && self.phone_state.num_active > 0 {
            self.phone_state.num_active = self.phone_state.num_active - 1;
        } else if self.phone_state.state == CallState::Incoming || self.phone_state.state
            == CallState::Dialing {
            self.phone_state.state = CallState::Idle;
        } else {
            return false;
        }
        let out = self.calls_without(true, true, false);
        proof {
            lemma_without_counts(s, true, true, false);
        }
        self.call_list = out;
        true
    }

    /// All held calls are released.
    pub fn release_held_impl(&mut self) -> (r: bool)
        requires
            old(self).wf(),
        ensures
            final(self).wf(),
            r == (old(self).phone_ops_enabled && old(self).phone_state.state is Idle),
            r ==> final(self).calls() == held_released(old(self).calls()) && final(self).phone_state == (PhoneState {
                num_held: 0,
                ..old(self).phone_state
            }) && final(self).same_settings(old(self)),
            !r ==> final(self).unchanged(old(self)),
    {
        reveal(Telephony::wf);
        if !self.phone_ops_enabled || self.phone_state.state != CallState::Idle {
            return false;
        }
        let ghost s = self.calls();
        let out = self.calls_without(false, false, true);
        proof {
            lemma_without_counts(s, false, false, true);
        }
        self.call_list = out;
        self.phone_state.num_held = 0;
        true
    }

    /// The active calls are released and the first held call becomes active.
    pub fn release_active_accept_held_impl(&mut self) -> (r: bool)
        requires
            old(self).wf(),
        ensures
            final(self).wf(),
            r == (old(self).phone_ops_enabled && old(self).phone_state.state is Idle),
            r ==> final(self).calls() == first_held_promoted(active_released(old(self).calls())) && final(self).same_settings(old(self)) && final(self).phone_state.state is Idle,
            r ==> (if old(self).phone_state.num_held > 0 {
                final(self).phone_state.num_active == 1 && final(self).phone_state.num_held
                    == old(self).phone_state.num_held - 1
            } else {
                final(self).phone_state.num_active == 0 && final(self).phone_state.num_held == 0
            }),
            !r ==> final(self).unchanged(old(self)),
    {
        reveal(Telephony::wf);
        if !self.phone_ops_enabled || self.phone_state.state != CallState::Idle {
            return false;
        }
        let ghost s = self.calls();
        let kept = self.calls_without(true, false, false);
        let ghost k = calls_view(kept@);
        proof {
            lemma_without_counts(s, true, false, false);
        }
        self.call_list = kept;
        self.phone_state.num_active = 0;
        assert(self.wf());
        self.promote_first_held();
        true
    }

    /// With no active call, the first held call becomes active.
    fn promote_first_held(&mut self)
        requires
            old(self).wf(),
            old(self).phone_state.num_active == 0,
            old(self).phone_state.state is Idle,
        ensures
            final(self).wf(),
            final(self).calls() == first_held_promoted(old(self).calls()),
            final(self).same_settings(old(self)),
            final(self).phone_state.state is Idle,
            old(self).phone_state.num_held > 0 ==> final(self).phone_state.num_active == 1
                && final(self).phone_state.num_held == old(self).phone_state.num_held - 1,
            old(self).phone_state.num_held == 0 ==> final(self).phone_state.num_active == 0
                && final(self).phone_state.num_held == 0,
    {
        reveal(Telephony::wf);
        let ghost s = self.calls();
        let ghost target = first_held_promoted(s);
        let mut out: Vec<CallInfo> = Vec::new();
        let mut found = false;
        let mut i: usize = 0;
        while i < self.call_list.len()
            invariant
                s == self.calls(),
                s.len() == self.call_list@.len(),
                target == first_held_promoted(s),
                target.len() == s.len(),
                i <= s.len(),
                calls_view(out@) == target.take(i as int),
                found <==> exists|j: int| 0 <= j < i && (#[trigger] s[j].state) is Held,
                count_state(calls_view(out@), CallState::Active) == count_state(
                    s.take(i as int),
                    CallState::Active,
                ) + if found {
                    1int
                } else {
                    0int
                },
                count_state(calls_view(out@), CallState::Held) + if found {
                    1int
                } else {
                    0int
                } == count_state(s.take(i as int), CallState::Held),
                count_state(calls_view(out@), CallState::Incoming) == count_state(
                    s.take(i as int),
                    CallState::Incoming,
                ),
                count_state(calls_view(out@), CallState::Dialing) == count_state(
                    s.take(i as int),
                    CallState::Dialing,
                ),
                forall|v: int| #[trigger]
                    count_index(calls_view(out@), v) == count_index(s.take(i as int), v),
            decreases s.len() - i,
        {
            let mut c = self.call_list[i].duplicate();
            assert(c@ == s[i as int]);
            let ghost before_out = calls_view(out@);
            proof {
                assert(s.take(i + 1).drop_last() =~= s.take(i as int));
            }
            if !found && c.state == CallState::Held {
                assert(first_held(s, i as int));
                c.state = CallState::Active;
                found = true;
            } else {
                assert(!first_held(s, i as int));
            }
            assert(c@ == target[i as int]);
            out.push(c);
            proof {
                assert(calls_view(out@) =~= before_out.push(target[i as int]));
                assert(calls_view(out@) =~= target.take(i + 1));
                assert(calls_view(out@).drop_last() =~= before_out);
                assert(s.take(i + 1).last() == s[i as int]);
                assert forall|v: int| #[trigger]
                    count_index(calls_view(out@), v) == count_index(s.take(i + 1), v) by {
                    assert(count_index(calls_view(out@), v) == count_index(before_out, v) + if target[i as int].index == v {
                        1nat
                    } else {
                        0nat
                    });
                    assert(count_index(s.take(i + 1), v) == count_index(s.take(i as int), v) + if s[i as int].index == v {
                        1nat
                    } else {
                        0nat
                    });
                }
            }
            i = i + 1;
        }
        proof {
            assert(s.take(s.len() as int) =~= s);
            assert(target.take(s.len() as int) =~= target);
            lemma_count_state_pos(s, CallState::Incoming);
            lemma_count_state_pos(s, CallState::Dialing);
            lemma_count_state_pos(s, CallState::Held);
        }
        self.call_list = out;
        if found {
            self.phone_state.num_held = self.phone_state.num_held - 1;
            self.phone_state.num_active = 1;
        }
    }

    /// The active calls are held and the first call that was held becomes
    /// active.
    pub fn hold_active_accept_held_impl(&mut self) -> (r: bool)
        requires
            old(self).wf(),
        ensures
            final(self).wf(),
            r == (old(self).phone_ops_enabled && old(self).phone_state.state is Idle),
            r ==> final(self).calls() == swapped(old(self).calls()) && final(self).same_settings(
                old(self),
            ) && final(self).phone_state.state is Idle,
            r ==> (if old(self).phone_state.num_held > 0 {
                final(self).phone_state.num_active == 1 && final(self).phone_state.num_held
                    == old(self).phone_state.num_held + old(self).phone_state.num_active - 1
            } else {
                final(self).phone_state.num_active == 0 && final(self).phone_state.num_held
                    == old(self).phone_state.num_active
            }),
            !r ==> final(self).unchanged(old(self)),
    {
        reveal(Telephony::wf);
        if !self.phone_ops_enabled || self.phone_state.state != CallState::Idle {
            return false;
        }
        let ghost s = self.calls();
        proof {
            lemma_two_counts_le_len(s, CallState::Active, CallState::Held);
        }
        let ghost target = swapped(s);
        let mut out: Vec<CallInfo> = Vec::new();
        let mut found = false;
        let mut i: usize = 0;
        while i < self.call_list.len()
            invariant
                s == self.calls(),
                s.len() == self.call_list@.len(),
                target == swapped(s),
                target.len() == s.len(),
                i <= s.len(),
                calls_view(out@) == target.take(i as int),
                found <==> exists|j: int| 0 <= j < i && (#[trigger] s[j].state) is Held,
                count_state(calls_view(out@), CallState::Active) == if found {
                    1int
                } else {
                    0int
                },
                count_state(calls_view(out@), CallState::Held) + if found {
                    1int
                } else {
                    0int
                } == count_state(s.take(i as int), CallState::Held) + count_state(
                    s.take(i as int),
                    CallState::Active,
                ),
                count_state(calls_view(out@), CallState::Incoming) == count_state(
                    s.take(i as int),
                    CallState::Incoming,
                ),
                count_state(calls_view(out@), CallState::Dialing) == count_state(
                    s.take(i as int),
                    CallState::Dialing,
                ),
                forall|v: int| #[trigger]
                    count_index(calls_view(out@), v) == count_index(s.take(i as int), v),
            decreases s.len() - i,
        {
            let mut c = self.call_list[i].duplicate();
            assert(c@ == s[i as int]);
            let ghost before_out = calls_view(out@);
            proof {
                assert(s.take(i + 1).drop_last() =~= s.take(i as int));
            }
            if c.state == CallState::Active {
                c.state = CallState::Held;
            } else if !found && c.state == CallState::Held {
                assert(first_held(s, i as int));
                c.state = CallState::Active;
                found = true;
            } else {
                assert(!first_held(s, i as int));
            }
            assert(c@ == target[i as int]);
            out.push(c);
            proof {
                assert(calls_view(out@) =~= before_out.push(target[i as int]));
                assert(calls_view(out@) =~= target.take(i + 1));
                assert(calls_view(out@).drop_last() =~= before_out);
                assert(s.take(i + 1).last() == s[i as int]);
                assert forall|v: int| #[trigger]
                    count_index(calls_view(out@), v) == count_index(s.take(i + 1), v) by {
                    assert(count_index(calls_view(out@), v) == count_index(before_out, v) + if target[i as int].index == v {
                        1nat
                    } else {
                        0nat
                    });
                    assert(count_index(s.take(i + 1), v) == count_index(s.take(i as int), v) + if s[i as int].index == v {
                        1nat
                    } else {
                        0nat
                    });
                }
            }
            i = i + 1;
        }
        proof {
            assert(s.take(s.len() as int) =~= s);
            assert(target.take(s.len() as int) =~= target);
            lemma_count_state_pos(s, CallState::Incoming);
            lemma_count_state_pos(s, CallState::Dialing);
            lemma_count_state_pos(s, CallState::Held);
        }
        self.call_list = out;
        if found {
            self.phone_state.num_held = self.phone_state.num_held + self.phone_state.num_active
                - 1;
            self.phone_state.num_active = 1;
        } else {
            self.phone_state.num_held = self.phone_state.num_held + self.phone_state.num_active;
            self.phone_state.num_active = 0;
        }
        true
    }

    /// With phone operations off, stands in an active call while headset
    /// audio is up, so that the headset plays sound. Returns whether the
    /// phone state changed.
    pub fn start_synthetic_call(&mut self) -> (r: bool)
        requires
            old(self).wf(),
        ensures
            final(self).wf(),
            r == (!old(self).phone_ops_enabled && old(self).phone_state.num_active != 1),
            r ==> final(self).calls() == seq![synthetic_call()] && final(self).phone_state == (
            PhoneState { num_active: 1, ..old(self).phone_state }) && final(self).same_settings(
                old(self),
            ),
            !r ==> final(self).unchanged(old(self)),
    {
        reveal(Telephony::wf);
        if self.phone_ops_enabled || self.phone_state.num_active == 1 {
            return false;
        }
        self.set_single_synthetic_call();
        true
    }

    fn set_single_synthetic_call(&mut self)
        requires
            old(self).phone_state.num_held == 0,
            old(self).phone_state.state is Idle,
        ensures
            final(self).wf(),
            final(self).calls() == seq![synthetic_call()],
            final(self).phone_state == (PhoneState { num_active: 1, ..old(self).phone_state }),
            final(self).same_settings(old(self)),
    {
        reveal(Telephony::wf);
        self.phone_state.num_active = 1;
        let mut list: Vec<CallInfo> = Vec::new();
        list.push(
            CallInfo {
                index: 1,
                dir_incoming: false,
                state: CallState::Active,
                number: String::new(),
            },
        );
        self.call_list = list;
        let ghost s = self.calls();
        assert(s =~= seq![synthetic_call()]);
        assert(s.drop_last() =~= Seq::<CallView>::empty());
        assert forall|v: int| #[trigger] count_index(s, v) <= 1 by {
            assert(count_index(s.drop_last(), v) == 0);
        }
        assert forall|v: int| v < 1 implies #[trigger] count_index(s, v) == 0 by {
            assert(count_index(s.drop_last(), v) == 0);
        }
        assert(count_state(s.drop_last(), CallState::Active) == 0);
        assert(count_state(s.drop_last(), CallState::Held) == 0);
        assert(count_state(s.drop_last(), CallState::Incoming) == 0);
        assert(count_state(s.drop_last(), CallState::Dialing) == 0);
    }

    /// With phone operations off, drops the stand-in call when headset audio
    /// goes down. Returns whether the phone state changed.
    pub fn end_synthetic_call(&mut self) -> (r: bool)
        requires
            old(self).wf(),
        ensures
            final(self).wf(),
            r == (!old(self).phone_ops_enabled && old(self).phone_state.num_active != 0),
            r ==> final(self).calls() == Seq::<CallView>::empty() && final(self).phone_state == (
            PhoneState { num_active: 0, ..old(self).phone_state }) && final(self).same_settings(
                old(self),
            ),
            !r ==> final(self).unchanged(old(self)),
    {
        reveal(Telephony::wf);
        if self.phone_ops_enabled || self.phone_state.num_active == 0 {
            return false;
        }
        self.phone_state.num_active = 0;
        self.call_list = Vec::new();
        assert(self.calls() =~= Seq::<CallView>::empty());
        true
    }

    /// Turns phone operations on or off; the call state starts afresh on
    /// every call. When they are off while a headset's service level
    /// connection is up (`any_slc`), a stand-in active call is kept.
    pub fn set_phone_ops_enabled(&mut self, enable: bool, any_slc: bool)
        requires
            old(self).wf(),
        ensures
            final(self).wf(),
            final(self).phone_ops_enabled == enable,
            final(self).memory_dialing_number is None,
            final(self).last_dialing_number is None,
            final(self).telephony_device_status == old(self).telephony_device_status,
            if !enable && any_slc {
                final(self).calls() == seq![synthetic_call()] && final(self).phone_state == (
                PhoneState { num_active: 1, num_held: 0, state: CallState::Idle })
            } else {
                final(self).calls() == Seq::<CallView>::empty() && final(self).phone_state == (
                PhoneState { num_active: 0, num_held: 0, state: CallState::Idle })
            },
    {
        reveal(Telephony::wf);
        self.call_list = Vec::new();
        self.phone_state.num_active = 0;
        self.phone_state.num_held = 0;
        self.phone_state.state = CallState::Idle;
        self.memory_dialing_number = None;
        self.last_dialing_number = None;
        assert(self.calls() =~= Seq::<CallView>::empty());
        if !enable && any_slc {
            self.set_single_synthetic_call();
        }
        self.phone_ops_enabled = enable;
    }

    /// Sets or clears the memory slot; refused while phone operations are off.
    pub fn set_memory_call(&mut self, number: Option<String>) -> (r: bool)
        requires
            old(self).wf(),
        ensures
            final(self).wf(),
            r == old(self).phone_ops_enabled,
            r ==> final(self).memory_dialing_number == number && final(self).phone_state == old(
                self,
            ).phone_state && final(self).calls() == old(self).calls()
                && final(self).last_dialing_number == old(self).last_dialing_number
                && final(self).telephony_device_status == old(self).telephony_device_status
                && final(self).phone_ops_enabled,
            !r ==> final(self).unchanged(old(self)),
    {
        reveal(Telephony::wf);
        if !self.phone_ops_enabled {
            return false;
        }
        self.memory_dialing_number = number;
        true
    }

    /// Sets or clears the last dialed number; refused while phone operations
    /// are off.
    pub fn set_last_call(&mut self, number: Option<String>) -> (r: bool)
        requires
            old(self).wf(),
        ensures
            final(self).wf(),
            r == old(self).phone_ops_enabled,
            r ==> final(self).last_dialing_number == number && final(self).phone_state == old(
                self,
            ).phone_state && final(self).calls() == old(self).calls()
                && final(self).memory_dialing_number == old(self).memory_dialing_number
                && final(self).telephony_device_status == old(self).telephony_device_status
                && final(self).phone_ops_enabled,
            !r ==> final(self).unchanged(old(self)),
    {
        reveal(Telephony::wf);
        if !self.phone_ops_enabled {
            return false;
        }
        self.last_dialing_number = number;
        true
    }

    /// The number that a headset's dial command `number` asks for.
    pub fn dial_number(&self, number: String) -> (r: Option<String>)
        ensures
            opt_view(r) == dial_target(
                number@,
                opt_view(self.last_dialing_number),
                opt_view(self.memory_dialing_number),
            ),
    {
        let b = number.as_str().as_bytes();
        if b.len() == 0 {
            match &self.last_dialing_number {
                Some(s) => Some(s.clone()),
                None => None,
            }
        } else if b[0] == 62 {
            match &self.memory_dialing_number {
                Some(s) => Some(s.clone()),
                None => None,
            }
        } else {
            Some(number)
        }
    }
}

pub proof fn lemma_count_below_le_len(s: Seq<CallView>, v: int)
    ensures
        count_below(s, v) <= s.len(),
    decreases s.len(),
{
    if s.len() > 0 {
        lemma_count_below_le_len(s.drop_last(), v);
    }
}

pub proof fn lemma_count_below_step(s: Seq<CallView>, v: int)
    ensures
        count_below(s, v + 1) == count_below(s, v) + count_index(s, v),
    decreases s.len(),
{
    if s.len() > 0 {
        lemma_count_below_step(s.drop_last(), v);
    }
}

/// An index is in use exactly when some call counts for it.
pub proof fn lemma_count_index_used(s: Seq<CallView>, v: int)
    ensures
        index_used(s, v) <==> count_index(s, v) > 0,
    decreases s.len(),
{
    if s.len() > 0 {
        let t = s.drop_last();
        lemma_count_index_used(t, v);
        if index_used(t, v) {
            let i = choose|i: int| 0 <= i < t.len() && t[i].index == v;
            assert(s[i].index == v);
        }
        if index_used(s, v) {
            let i = choose|i: int| 0 <= i < s.len() && s[i].index == v;
            if i < t.len() {
                assert(t[i].index == v);
            }
        }
    }
}

proof fn lemma_min_free_unique(s: Seq<CallView>, v: int)
    requires
        is_min_free_index(s, v),
    ensures
        min_free_index(s) == v,
{
    let w = min_free_index(s);
    assert(is_min_free_index(s, w));
    if w < v {
        assert(index_used(s, w));
    }
    if v < w {
        assert(index_used(s, v));
    }
}

/// Counts of what `without_calls` keeps.
pub proof fn lemma_without_counts(s: Seq<CallView>, active: bool, ringing: bool, held: bool)
    ensures
        forall|st: CallState|
            #[trigger] count_state(without_calls(s, active, ringing, held), st) == if drops(
                st,
                active,
                ringing,
                held,
            ) {
                0
            } else {
                count_state(s, st)
            },
        forall|v: int| #[trigger]
            count_index(without_calls(s, active, ringing, held), v) <= count_index(s, v),
        without_calls(s, active, ringing, held).len() <= s.len(),
    decreases s.len(),
{
    if s.len() > 0 {
        let t = s.drop_last();
        lemma_without_counts(t, active, ringing, held);
        let rest = without_calls(t, active, ringing, held);
        if !drops(s.last().state, active, ringing, held) {
            assert(rest.push(s.last()).drop_last() =~= rest);
        }
        assert forall|st: CallState|
            #[trigger] count_state(without_calls(s, active, ringing, held), st) == if drops(
                st,
                active,
                ringing,
                held,
            ) {
                0
            } else {
                count_state(s, st)
            } by {
            assert(count_state(rest, st) == if drops(st, active, ringing, held) {
                0
            } else {
                count_state(t, st)
            });
        }
        assert forall|v: int| #[trigger]
            count_index(without_calls(s, active, ringing, held), v) <= count_index(s, v) by {
            assert(count_index(rest, v) <= count_index(t, v));
        }
    }
}

/// Some call is in state `st` exactly when the count of such calls is positive.
pub proof fn lemma_count_state_pos(s: Seq<CallView>, st: CallState)
    ensures
        count_state(s, st) > 0 <==> exists|i: int| 0 <= i < s.len() && (#[trigger] s[i].state) == st,
    decreases s.len(),
{
    if s.len() > 0 {
        let t = s.drop_last();
        lemma_count_state_pos(t, st);
        if exists|i: int| 0 <= i < t.len() && (#[trigger] t[i].state) == st {
            let i = choose|i: int| 0 <= i < t.len() && (#[trigger] t[i].state) == st;
            assert(s[i].state == st);
        }
        if exists|i: int| 0 <= i < s.len() && (#[trigger] s[i].state) == st {
            let i = choose|i: int| 0 <= i < s.len() && (#[trigger] s[i].state) == st;
            if i < t.len() {
                assert(t[i].state == st);
            }
        }
    }
}

/// Calls in two different states are at most all the calls.
pub proof fn lemma_two_counts_le_len(s: Seq<CallView>, a: CallState, b: CallState)
    requires
        a != b,
    ensures
        count_state(s, a) + count_state(s, b) <= s.len(),
    decreases s.len(),
{
    if s.len() > 0 {
        lemma_two_counts_le_len(s.drop_last(), a, b);
    }
}

/// The indices of the calls in a well-formed list are distinct and positive.
pub proof fn lemma_call_indices_distinct(t: Telephony)
    requires
        t.wf(),
    ensures
        forall|i: int| 0 <= i < t.calls().len() ==> #[trigger] t.calls()[i].index >= 1,
        forall|i: int, j: int|
            0 <= i < t.calls().len() && 0 <= j < t.calls().len() && i != j ==> (#[trigger] t.calls()[i]).index
                != (#[trigger] t.calls()[j]).index,
{
    reveal(Telephony::wf);
    let s = t.calls();
    assert forall|i: int| 0 <= i < s.len() implies #[trigger] s[i].index >= 1 by {
        lemma_count_index_used(s, s[i].index as int);
    }
    assert forall|i: int, j: int|
        0 <= i < s.len() && 0 <= j < s.len() && i != j implies (#[trigger] s[i]).index != (
        #[trigger] s[j]).index by {
        if s[i].index == s[j].index {
            lemma_two_uses(s, i, j);
        }
    }
}

proof fn lemma_two_uses(s: Seq<CallView>, i: int, j: int)
    requires
        0 <= i < s.len(),
        0 <= j < s.len(),
        i != j,
        s[i].index == s[j].index,
    ensures
        count_index(s, s[i].index as int) >= 2,
    decreases s.len(),
{
    let t = s.drop_last();
    let v = s[i].index as int;
    let last = s.len() - 1;
    if i == last {
        assert(t[j].index == v);
        lemma_count_index_used(t, v);
    } else if j == last {
        assert(t[i].index == v);
        lemma_count_index_used(t, v);
    } else {
        assert(t[i] == s[i]);
        assert(t[j] == s[j]);
        lemma_two_uses(t, i, j);
    }
}

/// At most one call rings (is incoming or dialing) at any time.
pub proof fn lemma_at_most_one_ringing(t: Telephony)
    requires
        t.wf(),
    ensures
        count_state(t.calls(), CallState::Incoming) + count_state(t.calls(), CallState::Dialing)
            <= 1,
{
    reveal(Telephony::wf);
}

/// The counts of active and held calls in the phone state match the call
/// list.
/// How an answer command leaves the telephony state.
pub open spec fn answer_rel(t0: Telephony, t1: Telephony, ok: bool) -> bool {
    &&& ok == (t0.phone_ops_enabled && !(t0.phone_state.state is Idle))
    &&& ok ==> t1.calls() == answered(t0.calls()) && t1.phone_state == (PhoneState {
        state: CallState::Idle,
        num_active: (t0.phone_state.num_active + 1) as u32,
        ..t0.phone_state
    }) && t1.same_settings(&t0)
    &&& !ok ==> t1.unchanged(&t0)
}

/// How a hang-up command leaves the telephony state.
pub open spec fn hangup_rel(t0: Telephony, t1: Telephony, ok: bool) -> bool {
    &&& ok == (t0.phone_ops_enabled && ((t0.phone_state.state is Idle
        && t0.phone_state.num_active > 0) || is_ringing(t0.phone_state.state)))
    &&& ok ==> t1.calls() == hung_up(t0.calls()) && t1.phone_state == (if t0.phone_state.state is Idle {
        PhoneState { num_active: (t0.phone_state.num_active - 1) as u32, ..t0.phone_state }
    } else {
        PhoneState { state: CallState::Idle, ..t0.phone_state }
    }) && t1.same_settings(&t0)
    &&& !ok ==> t1.unchanged(&t0)
}

/// How placing (or taking) a call to `number` leaves the telephony state.
pub open spec fn new_call_rel(
    t0: Telephony,
    t1: Telephony,
    ok: bool,
    number: Seq<char>,
    incoming: bool,
) -> bool {
    &&& ok == t0.call_may_start()
    &&& ok ==> t1.calls() == t0.calls().push(
        CallView {
            index: min_free_index(t0.calls()) as i32,
            dir_incoming: incoming,
            state: if incoming {
                CallState::Incoming
            } else {
                CallState::Dialing
            },
            number,
        },
    ) && t1.phone_state == (PhoneState {
        state: if incoming {
            CallState::Incoming
        } else {
            CallState::Dialing
        },
        ..t0.phone_state
    }) && t1.same_settings(&t0)
    &&& !ok ==> t1.unchanged(&t0)
}

/// How a call hold command leaves the telephony state.
pub open spec fn hold_rel(t0: Telephony, t1: Telephony, ok: bool, cmd: CallHoldCommand) -> bool {
    &&& ok == (t0.phone_ops_enabled && t0.phone_state.state is Idle && !(cmd is AddHeldToConf))
    &&& (ok && cmd is ReleaseHeld) ==> t1.calls() == held_released(t0.calls()) && t1.phone_state == (
    PhoneState { num_held: 0, ..t0.phone_state }) && t1.same_settings(&t0)
    &&& (ok && cmd is ReleaseActiveAcceptHeld) ==> t1.calls() == first_held_promoted(active_released(t0.calls()))
        && t1.same_settings(&t0) && t1.phone_state.state is Idle && (if t0.phone_state.num_held
        > 0 {
        t1.phone_state.num_active == 1 && t1.phone_state.num_held == t0.phone_state.num_held - 1
    } else {
        t1.phone_state.num_active == 0 && t1.phone_state.num_held == 0
    })
    &&& (ok && cmd is HoldActiveAcceptHeld) ==> t1.calls() == swapped(t0.calls()) && t1.same_settings(&t0)
        && t1.phone_state.state is Idle && (if t0.phone_state.num_held > 0 {
        t1.phone_state.num_active == 1 && t1.phone_state.num_held == t0.phone_state.num_held
            + t0.phone_state.num_active - 1
    } else {
        t1.phone_state.num_active == 0 && t1.phone_state.num_held == t0.phone_state.num_active
    })
    &&& !ok ==> t1.unchanged(&t0)
}

/// How the stand-in call follows headset audio going up (`up`) or down.
pub open spec fn synthetic_rel(t0: Telephony, t1: Telephony, changed: bool, up: bool) -> bool {
    &&& changed == (!t0.phone_ops_enabled && t0.phone_state.num_active != if up {
        1u32
    } else {
        0u32
    })
    &&& changed ==> t1.calls() == (if up {
        seq![synthetic_call()]
    } else {
        Seq::<CallView>::empty()
    }) && t1.phone_state == (PhoneState {
        num_active: if up {
            1u32
        } else {
            0u32
        },
        ..t0.phone_state
    }) && t1.same_settings(&t0)
    &&& !changed ==> t1.unchanged(&t0)
}

pub proof fn lemma_phone_state_counts(t: Telephony)
    requires
        t.wf(),
    ensures
        t.phone_state.num_active + t.phone_state.num_held == count_state(
            t.calls(),
            CallState::Active,
        ) + count_state(t.calls(), CallState::Held),
{
    reveal(Telephony::wf);
}

} // verus!
