//! The sessions of the dashboard and the devices that were seen.
//!
//! A session listens to at most one device.  What a device reports goes to
//! the sessions that listen to exactly that device, and to no other; the
//! answer to a request goes to the session that asked.

use crate::identity::{opt_identity, DeviceIdentity, LiDARInfo};
use crate::message::{identities, ResponseMessage};
use vstd::prelude::*;

verus! {

/// What a session is in contracts.
pub struct SessionView {
    pub id: u128,
    pub lidar_info: Option<DeviceIdentity>,
}

/// One connection of a dashboard: its id and the device it listens to.
#[derive(Debug, Clone, Copy)]
pub struct Session {
    pub id: u128,
    pub lidar_info: Option<LiDARInfo>,
}

impl View for Session {
    type V = SessionView;

    open spec fn view(&self) -> SessionView {
        SessionView { id: self.id, lidar_info: opt_identity(self.lidar_info) }
    }
}

/// The sessions of a list, each as it is in contracts.
pub open spec fn sessions_view(sessions: Seq<Session>) -> Seq<SessionView> {
    sessions.map_values(|s: Session| s@)
}

/// What the state is in contracts: the sessions in the order in which they
/// connected, and the devices in the order in which they were first seen.
pub struct AppStateView {
    pub sessions: Seq<SessionView>,
    pub lidar_infos: Seq<DeviceIdentity>,
}

impl AppStateView {
    /// No two sessions share an id and no device is listed twice.
    pub open spec fn wf(self) -> bool {
        &&& forall|i: int, j: int|
            0 <= i < j < self.sessions.len() ==> self.sessions[i].id != self.sessions[j].id
        &&& self.lidar_infos.no_duplicates()
    }

    /// Whether the session `id` is connected.
    pub open spec fn connected(self, id: u128) -> bool {
        exists|i: int| 0 <= i < self.sessions.len() && self.sessions[i].id == id
    }

    /// Whether the session `id` is connected and listens to `identity`.
    pub open spec fn listens(self, id: u128, identity: DeviceIdentity) -> bool {
        exists|i: int|
            0 <= i < self.sessions.len() && self.sessions[i].id == id && self.sessions[i].lidar_info
                == Some(identity)
    }
}

/// The sessions but the one with the id `id`.
pub open spec fn spec_without(sessions: Seq<SessionView>, id: u128) -> Seq<SessionView>
    decreases sessions.len(),
{
    if sessions.len() == 0 {
        sessions
    } else {
        let rest = spec_without(sessions.drop_last(), id);
        if sessions.last().id == id {
            rest
        } else {
            rest.push(sessions.last())
        }
    }
}

/// The sessions after `id` has connected: it listens to nothing, and a
/// session that had the same id is gone.
pub open spec fn spec_connected(sessions: Seq<SessionView>, id: u128) -> Seq<SessionView> {
    spec_without(sessions, id).push(SessionView { id, lidar_info: None })
}

/// The sessions after `id` has asked to listen to `identity`.
pub open spec fn spec_registered(sessions: Seq<SessionView>, id: u128, identity: DeviceIdentity)
    -> Seq<SessionView> {
    Seq::new(
        sessions.len(),
        |i: int|
            if sessions[i].id == id {
                SessionView { id, lidar_info: Some(identity) }
            } else {
                sessions[i]
            },
    )
}

/// The ids of the sessions that listen to `identity`, in the order of the sessions.
pub open spec fn spec_subscribers(sessions: Seq<SessionView>, identity: DeviceIdentity) -> Seq<u128>
    decreases sessions.len(),
{
    if sessions.len() == 0 {
        Seq::empty()
    } else {
        let rest = spec_subscribers(sessions.drop_last(), identity);
        if sessions.last().lidar_info == Some(identity) {
            rest.push(sessions.last().id)
        } else {
            rest
        }
    }
}

/// The devices seen after `identity` was seen.
pub open spec fn spec_observed(known: Seq<DeviceIdentity>, identity: DeviceIdentity) -> Seq<
    DeviceIdentity,
> {
    if known.contains(identity) {
        known
    } else {
        known.push(identity)
    }
}

/// The sessions that what a device reported goes to.
pub open spec fn spec_recipients(sessions: Seq<SessionView>, about: Option<DeviceIdentity>) -> Seq<
    u128,
> {
    match about {
        Some(identity) => spec_subscribers(sessions, identity),
        None => Seq::empty(),
    }
}

/// Taking a session away leaves the other sessions as they were, in their order.
pub proof fn lemma_without(sessions: Seq<SessionView>, id: u128)
    ensures
        forall|k: int|
            0 <= k < spec_without(sessions, id).len() ==> (#[trigger] spec_without(
                sessions,
                id,
            )[k]).id != id,
        forall|k: int|
            0 <= k < spec_without(sessions, id).len() ==> sessions.contains(
                #[trigger] spec_without(sessions, id)[k],
            ),
        forall|i: int|
            0 <= i < sessions.len() && sessions[i].id != id ==> spec_without(sessions, id).contains(
                #[trigger] sessions[i],
            ),
        (AppStateView { sessions, lidar_infos: Seq::empty() }).wf() ==> (AppStateView {
            sessions: spec_without(sessions, id),
            lidar_infos: Seq::empty(),
        }).wf(),
    decreases sessions.len(),
{
    let out = spec_without(sessions, id);
    if sessions.len() > 0 {
        let front = sessions.drop_last();
        let rest = spec_without(front, id);
        lemma_without(front, id);
        assert forall|k: int| 0 <= k < out.len() implies sessions.contains(#[trigger] out[k]) by {
            if k < rest.len() {
                assert(front.contains(rest[k]));
                let i = choose|i: int| 0 <= i < front.len() && front[i] == rest[k];
                assert(sessions[i] == rest[k]);
            } else {
                assert(sessions[sessions.len() - 1] == out[k]);
            }
        }
        assert forall|i: int| 0 <= i < sessions.len() && sessions[i].id != id implies out.contains(
            #[trigger] sessions[i],
        ) by {
            if i < front.len() {
                assert(front[i] == sessions[i]);
                assert(rest.contains(front[i]));
                let k = choose|k: int| 0 <= k < rest.len() && rest[k] == front[i];
                assert(out[k] == sessions[i]);
            } else {
                assert(out[out.len() - 1] == sessions[i]);
            }
        }
        if (AppStateView { sessions, lidar_infos: Seq::empty() }).wf() {
            assert((AppStateView { sessions: front, lidar_infos: Seq::empty() }).wf()) by {
                assert forall|i: int, j: int| 0 <= i < j < front.len() implies front[i].id
                    != front[j].id by {
                    assert(front[i] == sessions[i] && front[j] == sessions[j]);
                }
            }
            assert forall|i: int, j: int| 0 <= i < j < out.len() implies out[i].id != out[j].id by {
                if j == rest.len() {
                    assert(front.contains(rest[i]));
                    let a = choose|a: int| 0 <= a < front.len() && front[a] == rest[i];
                    assert(sessions[a].id != sessions[sessions.len() - 1].id);
                }
            }
        }
    }
}

/// What a device reports goes to a session exactly if the session is
/// connected and listens to that device; no session is named twice.
pub proof fn lemma_subscribers(sessions: Seq<SessionView>, identity: DeviceIdentity)
    ensures
        forall|id: u128|
            #![trigger spec_subscribers(sessions, identity).contains(id)]
            spec_subscribers(sessions, identity).contains(id) <==> (AppStateView {
                sessions,
                lidar_infos: Seq::empty(),
            }).listens(id, identity),
        (AppStateView { sessions, lidar_infos: Seq::empty() }).wf() ==> spec_subscribers(
            sessions,
            identity,
        ).no_duplicates(),
    decreases sessions.len(),
{
    let out = spec_subscribers(sessions, identity);
    let state = AppStateView { sessions, lidar_infos: Seq::empty() };
    if sessions.len() == 0 {
        assert forall|id: u128| #![trigger out.contains(id)] out.contains(id) <==> state.listens(
            id,
            identity,
        ) by {}
    } else {
        let front = sessions.drop_last();
        let last = sessions.last();
        let rest = spec_subscribers(front, identity);
        let front_state = AppStateView { sessions: front, lidar_infos: Seq::empty() };
        lemma_subscribers(front, identity);
        assert forall|id: u128| #![trigger out.contains(id)] out.contains(id) <==> state.listens(
            id,
            identity,
        ) by {
            if out.contains(id) {
                let k = choose|k: int| 0 <= k < out.len() && out[k] == id;
                if k < rest.len() {
                    assert(rest[k] == id);
                    assert(rest.contains(id));
                    let i = choose|i: int|
                        0 <= i < front.len() && front[i].id == id && front[i].lidar_info == Some(
                            identity,
                        );
                    assert(sessions[i] == front[i]);
                } else {
                    assert(sessions[sessions.len() - 1] == last);
                }
            }
            if state.listens(id, identity) {
                let i = choose|i: int|
                    0 <= i < sessions.len() && sessions[i].id == id && sessions[i].lidar_info
                        == Some(identity);
                if i < front.len() {
                    assert(front[i] == sessions[i]);
                    assert(front_state.listens(id, identity));
                    assert(rest.contains(id));
                    let k = choose|k: int| 0 <= k < rest.len() && rest[k] == id;
                    assert(out[k] == id);
                } else {
                    assert(out[out.len() - 1] == id);
                }
            }
        }
        if state.wf() {
            assert(front_state.wf()) by {
                assert forall|i: int, j: int| 0 <= i < j < front.len() implies front[i].id
                    != front[j].id by {
                    assert(front[i] == sessions[i] && front[j] == sessions[j]);
                }
            }
            assert forall|i: int, j: int| 0 <= i < out.len() && 0 <= j < out.len() && i
                != j implies out[i] != out[j] by {
                if i == rest.len() || j == rest.len() {
                    let other = if i == rest.len() {
                        j
                    } else {
                        i
                    };
                    assert(rest.contains(rest[other]));
                    let a = choose|a: int|
                        0 <= a < front.len() && front[a].id == rest[other] && front[a].lidar_info
                            == Some(identity);
                    assert(sessions[a].id != sessions[sessions.len() - 1].id);
                }
            }
        }
    }
}

/// Seeing a device that is listed changes nothing, and no device is ever
/// listed twice.
pub proof fn lemma_observed(known: Seq<DeviceIdentity>, identity: DeviceIdentity)
    requires
        known.no_duplicates(),
    ensures
        spec_observed(known, identity).no_duplicates(),
        spec_observed(known, identity).contains(identity),
        forall|other: DeviceIdentity|
            known.contains(other) ==> #[trigger] spec_observed(known, identity).contains(other),
        spec_observed(spec_observed(known, identity), identity) == spec_observed(known, identity),
{
    let out = spec_observed(known, identity);
    if !known.contains(identity) {
        assert(out[known.len() as int] == identity);
        assert forall|other: DeviceIdentity| known.contains(other) implies out.contains(
            other,
        ) by {
            let i = choose|i: int| 0 <= i < known.len() && known[i] == other;
            assert(out[i] == other);
        }
    }
}

/// Calls `uuid::Uuid::new_v4` and returns the 128 bits of the id that it
/// made.  The id is random: nothing is claimed of it.
#[verifier::external_body]
fn random_id() -> u128 {
    uuid::Uuid::new_v4().as_u128()
}

/// The sessions that are connected and the devices that were seen.
pub struct AppState {
    sessions: Vec<Session>,
    lidar_infos: Vec<LiDARInfo>,
}

impl View for AppState {
    type V = AppStateView;

    closed spec fn view(&self) -> AppStateView {
        AppStateView {
            sessions: sessions_view(self.sessions@),
            lidar_infos: identities(self.lidar_infos@),
        }
    }
}

impl AppState {
    #[verifier::type_invariant]
    closed spec fn inv(&self) -> bool {
        self@.wf()
    }

    /// A state without sessions and without devices.
    pub fn new() -> (state: Self)
        ensures
            state@.sessions == Seq::<SessionView>::empty(),
            state@.lidar_infos == Seq::<DeviceIdentity>::empty(),
            state@.wf(),
    {
        let state = Self { sessions: Vec::new(), lidar_infos: Vec::new() };
        assert(state@.sessions =~= Seq::<SessionView>::empty());
        assert(state@.lidar_infos =~= Seq::<DeviceIdentity>::empty());
        state
    }

    /// The sessions but the one with the id `id`.
    fn without(&self, id: u128) -> (out: Vec<Session>)
        ensures
            sessions_view(out@) == spec_without(self@.sessions, id),
    {
        let mut out: Vec<Session> = Vec::new();
        let mut i: usize = 0;
        assert(self.sessions@.take(0) =~= Seq::<Session>::empty());
        assert(sessions_view(out@) =~= spec_without(sessions_view(self.sessions@.take(0)), id));
        while i < self.sessions.len()
            invariant
                i <= self.sessions@.len(),
                sessions_view(out@) == spec_without(sessions_view(self.sessions@.take(i as int)), id),
            decreases self.sessions@.len() - i,
        {
            let session = self.sessions[i];
            proof {
                let before = sessions_view(self.sessions@.take(i as int));
                let now = sessions_view(self.sessions@.take(i + 1));
                assert(now.drop_last() =~= before);
                assert(now.last() == session@);
            }
            if session.id != id {
                let ghost old_out = out@;
                out.push(session);
                assert(sessions_view(out@) =~= sessions_view(old_out).push(session@));
            }
            i += 1;
        }
        assert(self.sessions@.take(i as int) =~= self.sessions@);
        out
    }

    /// Records that the session `id` has connected.  It listens to no
    /// device.  A session that had the same id is replaced.
    pub fn add_session(&mut self, id: u128)
        ensures
            final(self)@.sessions == spec_connected(old(self)@.sessions, id),
            final(self)@.lidar_infos == old(self)@.lidar_infos,
            final(self)@.wf(),
    {
        proof {
            use_type_invariant(&*self);
            lemma_without(self@.sessions, id);
        }
        let mut sessions = self.without(id);
        let ghost rest = sessions@;
        sessions.push(Session { id, lidar_info: None });
        proof {
            let fresh = SessionView { id, lidar_info: None };
            assert(sessions_view(sessions@) =~= sessions_view(rest).push(fresh));
        }
        self.sessions = sessions;
    }

    /// Gives a new session a random id and records that it has connected.
    pub fn connect(&mut self) -> (id: u128)
        ensures
            final(self)@.sessions == spec_connected(old(self)@.sessions, id),
            final(self)@.lidar_infos == old(self)@.lidar_infos,
            final(self)@.wf(),
    {
        let id = random_id();
        self.add_session(id);
        id
    }

    /// Records that the session `id` is gone.  The devices that were seen
    /// stay as they are.
    pub fn disconnect(&mut self, id: u128)
        ensures
            final(self)@.sessions == spec_without(old(self)@.sessions, id),
            final(self)@.lidar_infos == old(self)@.lidar_infos,
            final(self)@.wf(),
    {
        proof {
            use_type_invariant(&*self);
            lemma_without(self@.sessions, id);
        }
        let sessions = self.without(id);
        self.sessions = sessions;
    }

    /// Tells whether the session `id` is connected.
    pub fn is_connected(&self, id: u128) -> (found: bool)
        ensures
            found == self@.connected(id),
    {
        let mut i: usize = 0;
        while i < self.sessions.len()
            invariant
                i <= self.sessions@.len(),
                forall|j: int| 0 <= j < i ==> self.sessions@[j].id != id,
            decreases self.sessions@.len() - i,
        {
            if self.sessions[i].id == id {
                assert(self@.sessions[i as int].id == id);
                return true;
            }
            i += 1;
        }
        assert forall|j: int| 0 <= j < self@.sessions.len() implies self@.sessions[j].id != id by {
            assert(self@.sessions[j] == self.sessions@[j]@);
        }
        false
    }

    /// Records that the session `id` listens to the device `info`, and to
    /// no other.  Returns whether the session is connected; where it is not,
    /// nothing changes.
    pub fn register(&mut self, id: u128, info: LiDARInfo) -> (found: bool)
        ensures
            final(self)@.sessions == spec_registered(old(self)@.sessions, id, info@),
            final(self)@.lidar_infos == old(self)@.lidar_infos,
            found == old(self)@.connected(id),
            final(self)@.wf(),
    {
        proof {
            use_type_invariant(&*self);
        }
        let found = self.is_connected(id);
        let mut out: Vec<Session> = Vec::new();
        let mut i: usize = 0;
        while i < self.sessions.len()
            invariant
                i <= self.sessions@.len(),
                out@.len() == i,
                forall|j: int|
                    0 <= j < i ==> (#[trigger] out@[j])@ == spec_registered(
                        self@.sessions,
                        id,
                        info@,
                    )[j],
            decreases self.sessions@.len() - i,
        {
            let session = self.sessions[i];
            if session.id == id {
                out.push(Session { id, lidar_info: Some(info) });
            } else {
                out.push(session);
            }
            i += 1;
        }
        proof {
            let after = spec_registered(self@.sessions, id, info@);
            assert(sessions_view(out@) =~= after);
            assert forall|a: int, b: int| 0 <= a < b < after.len() implies after[a].id
                != after[b].id by {
                assert(after[a].id == self@.sessions[a].id);
                assert(after[b].id == self@.sessions[b].id);
            }
        }
        self.sessions = out;
        found
    }

    /// Tells whether the device `info` is among the devices that were seen.
    pub fn is_known(&self, info: &LiDARInfo) -> (found: bool)
        ensures
            found == self@.lidar_infos.contains(info@),
    {
        let mut i: usize = 0;
        while i < self.lidar_infos.len()
            invariant
                i <= self.lidar_infos@.len(),
                forall|j: int| 0 <= j < i ==> self.lidar_infos@[j]@ != info@,
            decreases self.lidar_infos@.len() - i,
        {
            if self.lidar_infos[i] == *info {
                assert(self@.lidar_infos[i as int] == info@);
                return true;
            }
            i += 1;
        }
        assert forall|j: int| 0 <= j < self@.lidar_infos.len() implies self@.lidar_infos[j]
            != info@ by {
            assert(self@.lidar_infos[j] == self.lidar_infos@[j]@);
        }
        false
    }

    /// Records that the device `info` was seen.
    pub fn observe(&mut self, info: LiDARInfo)
        ensures
            final(self)@.lidar_infos == spec_observed(old(self)@.lidar_infos, info@),
            final(self)@.sessions == old(self)@.sessions,
            final(self)@.wf(),
    {
        proof {
            use_type_invariant(&*self);
            lemma_observed(self@.lidar_infos, info@);
        }
        if !self.is_known(&info) {
            let ghost before = self.lidar_infos@;
            let mut lidar_infos: Vec<LiDARInfo> = Vec::new();
            core::mem::swap(&mut lidar_infos, &mut self.lidar_infos);
            lidar_infos.push(info);
            assert(identities(lidar_infos@) =~= identities(before).push(info@));
            self.lidar_infos = lidar_infos;
        }
    }

    /// Forgets the devices that were seen.
    pub fn clear_known(&mut self)
        ensures
            final(self)@.lidar_infos == Seq::<DeviceIdentity>::empty(),
            final(self)@.sessions == old(self)@.sessions,
            final(self)@.wf(),
    {
        proof {
            use_type_invariant(&*self);
        }
        let lidar_infos: Vec<LiDARInfo> = Vec::new();
        assert(identities(lidar_infos@) =~= Seq::<DeviceIdentity>::empty());
        self.lidar_infos = lidar_infos;
    }

    /// The devices that were seen, in the order in which they were first seen.
    pub fn known_devices(&self) -> (list: Vec<LiDARInfo>)
        ensures
            identities(list@) == self@.lidar_infos,
            self@.wf(),
    {
        proof {
            use_type_invariant(self);
        }
        let mut list: Vec<LiDARInfo> = Vec::new();
        let mut i: usize = 0;
        while i < self.lidar_infos.len()
            invariant
                i <= self.lidar_infos@.len(),
                list@ == self.lidar_infos@.take(i as int),
            decreases self.lidar_infos@.len() - i,
        {
            list.push(self.lidar_infos[i]);
            assert(list@ =~= self.lidar_infos@.take(i + 1));
            i += 1;
        }
        assert(list@ =~= self.lidar_infos@);
        list
    }

    /// The sessions that `message` goes to when it reports what a device
    /// sent: those that listen to the device that the message is about.
    pub fn broadcast_message(&self, message: &ResponseMessage) -> (recipients: Vec<u128>)
        ensures
            recipients@ == spec_recipients(self@.sessions, message@.lidar_info),
            recipients@.no_duplicates(),
            forall|id: u128|
                #![trigger recipients@.contains(id)]
                recipients@.contains(id) <==> (message@.lidar_info matches Some(identity)
                    && self@.listens(id, identity)),
            self@.wf(),
    {
        proof {
            use_type_invariant(self);
        }
        let mut recipients: Vec<u128> = Vec::new();
        let about = match message.lidar_info {
            Some(info) => info,
            None => {
                return recipients;
            },
        };
        proof {
            lemma_subscribers(self@.sessions, about@);
        }
        let mut i: usize = 0;
        assert(self.sessions@.take(0) =~= Seq::<Session>::empty());
        while i < self.sessions.len()
            invariant
                i <= self.sessions@.len(),
                recipients@ == spec_subscribers(
                    sessions_view(self.sessions@.take(i as int)),
                    about@,
                ),
            decreases self.sessions@.len() - i,
        {
            let session = self.sessions[i];
            proof {
                let before = sessions_view(self.sessions@.take(i as int));
                let now = sessions_view(self.sessions@.take(i + 1));
                assert(now.drop_last() =~= before);
                assert(now.last() == session@);
            }
            let listens = match session.lidar_info {
                Some(info) => info == about,
                None => false,
            };
            if listens {
                recipients.push(session.id);
            }
            i += 1;
        }
        assert(self.sessions@.take(i as int) =~= self.sessions@);
        recipients
    }

    /// Tells whether `message`, the answer to a request of the session
    /// `uuid`, can be sent: it goes to that session alone, if it is connected.
    pub fn send_message(&self, uuid: u128, message: &ResponseMessage) -> (deliver: bool)
        ensures
            deliver == self@.connected(uuid),
    {
        self.is_connected(uuid)
    }
}

} // verus!
