use vstd::prelude::*;

use crate::config::SensorConfig;

verus! {

/// The registry: the monitored points, in insertion order, and the
/// agent-wide pause flag.
#[derive(Debug)]
pub struct SharedState {
    pub registered_sensors: Vec<SensorConfig>,
    pub paused_agent: bool,
}

/// Mathematical value of a [`SharedState`].
pub struct RegistryView {
    pub sensors: Seq<SensorConfig>,
    pub paused: bool,
}

impl View for SharedState {
    type V = RegistryView;

    open spec fn view(&self) -> RegistryView {
        RegistryView { sensors: self.registered_sensors@, paused: self.paused_agent }
    }
}

/// `s` with every entry whose id is `id` taken out, the others in order.
pub open spec fn without_id(s: Seq<SensorConfig>, id: Seq<char>) -> Seq<SensorConfig>
    decreases s.len(),
{
    if s.len() == 0 {
        s
    } else {
        let rest = without_id(s.drop_last(), id);
        if s.last().id@ == id {
            rest
        } else {
            rest.push(s.last())
        }
    }
}

/// `s` with the entry of `c`'s id replaced by `c`, which moves to the end.
pub open spec fn upsert(s: Seq<SensorConfig>, c: SensorConfig) -> Seq<SensorConfig> {
    without_id(s, c.id@).push(c)
}

/// `c` with a new label and a new address span.
pub open spec fn relabeled(c: SensorConfig, label: String, start: u16, end: u16) -> SensorConfig {
    SensorConfig {
        id: c.id,
        label: label,
        s_type: c.s_type,
        r_type: c.r_type,
        start_register: start,
        register: c.register,
        end_register: end,
    }
}

/// `s` with every entry of id `id` relabeled in place.
pub open spec fn edited(s: Seq<SensorConfig>, id: Seq<char>, label: String, start: u16, end: u16) -> Seq<
    SensorConfig,
> {
    s.map_values(
        |c: SensorConfig|
            if c.id@ == id {
                relabeled(c, label, start, end)
            } else {
                c
            },
    )
}

/// Whether some entry of `s` has id `id`.
pub open spec fn has_id(s: Seq<SensorConfig>, id: Seq<char>) -> bool {
    exists|i: int| 0 <= i < s.len() && #[trigger] s[i].id@ == id
}

/// No two entries of `s` share an id.
pub open spec fn unique_ids(s: Seq<SensorConfig>) -> bool {
    forall|i: int, j: int| 0 <= i < j < s.len() ==> #[trigger] s[i].id@ != #[trigger] s[j].id@
}

/// The registry keyed by id; of two entries with one id the later counts.
pub open spec fn keyed(s: Seq<SensorConfig>) -> Map<Seq<char>, SensorConfig>
    decreases s.len(),
{
    if s.len() == 0 {
        Map::empty()
    } else {
        keyed(s.drop_last()).insert(s.last().id@, s.last())
    }
}

/// Removing an id that no entry has leaves the sequence as it was.
pub proof fn lemma_without_absent_id(s: Seq<SensorConfig>, id: Seq<char>)
    requires
        !has_id(s, id),
    ensures
        without_id(s, id) == s,
    decreases s.len(),
{
    if s.len() > 0 {
        let p = s.drop_last();
        assert(!has_id(p, id)) by {
            if has_id(p, id) {
                let i = choose|i: int| 0 <= i < p.len() && #[trigger] p[i].id@ == id;
                assert(s[i].id@ == id);
            }
        }
        lemma_without_absent_id(p, id);
        assert(s.last().id@ != id) by {
            if s.last().id@ == id {
                assert(s[s.len() - 1].id@ == id);
            }
        }
        assert(p.push(s.last()) =~= s);
    }
}

/// Taking out an id keeps the ids unique, leaves no entry of that id, and
/// every id left was there before.
pub proof fn lemma_without_id_shape(s: Seq<SensorConfig>, id: Seq<char>)
    ensures
        !has_id(without_id(s, id), id),
        unique_ids(s) ==> unique_ids(without_id(s, id)),
        forall|x: Seq<char>| has_id(without_id(s, id), x) ==> has_id(s, x),
    decreases s.len(),
{
    let w = without_id(s, id);
    if s.len() > 0 {
        let p = s.drop_last();
        let wp = without_id(p, id);
        lemma_without_id_shape(p, id);
        assert forall|x: Seq<char>| has_id(p, x) implies has_id(s, x) by {
            let i = choose|i: int| 0 <= i < p.len() && #[trigger] p[i].id@ == x;
            assert(s[i] == p[i]);
        }
        if s.last().id@ != id {
            assert(w == wp.push(s.last()));
            assert forall|x: Seq<char>| has_id(w, x) implies has_id(s, x) by {
                let i = choose|i: int| 0 <= i < w.len() && #[trigger] w[i].id@ == x;
                if i == w.len() - 1 {
                    assert(s[s.len() - 1].id@ == x);
                } else {
                    assert(wp[i].id@ == x);
                }
            }
            assert(!has_id(w, id)) by {
                if has_id(w, id) {
                    let i = choose|i: int| 0 <= i < w.len() && #[trigger] w[i].id@ == id;
                    assert(i != w.len() - 1);
                    assert(wp[i].id@ == id);
                }
            }
            if unique_ids(s) {
                assert(unique_ids(p)) by {
                    assert forall|i: int, j: int| 0 <= i < j < p.len() implies #[trigger] p[i].id@
                        != #[trigger] p[j].id@ by {
                        assert(s[i] == p[i] && s[j] == p[j]);
                    }
                }
                assert(!has_id(p, s.last().id@)) by {
                    if has_id(p, s.last().id@) {
                        let i = choose|i: int| 0 <= i < p.len() && #[trigger] p[i].id@ == s.last().id@;
                        assert(s[i].id@ == s[s.len() - 1].id@);
                    }
                }
                assert forall|i: int, j: int| 0 <= i < j < w.len() implies #[trigger] w[i].id@
                    != #[trigger] w[j].id@ by {
                    if j == w.len() - 1 {
                        assert(w[i] == wp[i]);
                        if w[i].id@ == w[j].id@ {
                            assert(has_id(wp, s.last().id@));
                        }
                    } else {
                        assert(w[i] == wp[i] && w[j] == wp[j]);
                    }
                }
            }
        } else {
            assert(w == wp);
            if unique_ids(s) {
                assert forall|i: int, j: int| 0 <= i < j < p.len() implies #[trigger] p[i].id@
                    != #[trigger] p[j].id@ by {
                    assert(s[i] == p[i] && s[j] == p[j]);
                }
            }
        }
    }
}

/// Keyed by id, taking out an id is removing that key.
pub proof fn lemma_keyed_without(s: Seq<SensorConfig>, id: Seq<char>)
    ensures
        keyed(without_id(s, id)) == keyed(s).remove(id),
    decreases s.len(),
{
    if s.len() == 0 {
        assert(keyed(s).remove(id) =~= keyed(s));
    } else {
        let p = s.drop_last();
        lemma_keyed_without(p, id);
        let x = s.last();
        if x.id@ == id {
            assert(keyed(s).remove(id) =~= keyed(p).remove(id));
        } else {
            let wp = without_id(p, id);
            assert(wp.push(x).drop_last() =~= wp);
            assert(keyed(wp.push(x)) == keyed(wp).insert(x.id@, x));
            assert(keyed(s).remove(id) =~= keyed(p).remove(id).insert(x.id@, x));
        }
    }
}

/// Keyed by id, adding or replacing an entry is inserting it.
pub proof fn lemma_keyed_upsert(s: Seq<SensorConfig>, c: SensorConfig)
    ensures
        keyed(upsert(s, c)) == keyed(s).insert(c.id@, c),
        unique_ids(s) ==> unique_ids(upsert(s, c)),
{
    let w = without_id(s, c.id@);
    lemma_keyed_without(s, c.id@);
    lemma_without_id_shape(s, c.id@);
    assert(w.push(c).drop_last() =~= w);
    assert(keyed(s).remove(c.id@).insert(c.id@, c) =~= keyed(s).insert(c.id@, c));
    if unique_ids(s) {
        assert forall|i: int, j: int| 0 <= i < j < w.len() + 1 implies #[trigger] w.push(c)[i].id@
            != #[trigger] w.push(c)[j].id@ by {
            if j == w.len() {
                assert(w.push(c)[i] == w[i]);
                if w[i].id@ == c.id@ {
                    assert(has_id(w, c.id@));
                }
            } else {
                assert(w.push(c)[i] == w[i] && w.push(c)[j] == w[j]);
            }
        }
    }
}

impl RegistryView {
    /// Every id occurs at most once.
    pub open spec fn wf(self) -> bool {
        unique_ids(self.sensors)
    }
}

impl SharedState {
    /// An empty registry, not paused.
    pub fn new() -> (r: Self)
        ensures
            r@.sensors == Seq::<SensorConfig>::empty(),
            !r@.paused,
            r@.wf(),
    {
        SharedState { registered_sensors: Vec::new(), paused_agent: false }
    }

    /// Takes out every entry whose id is `id`; an absent id changes nothing.
    pub fn remove_sensor(&mut self, id: &str)
        ensures
            final(self)@.sensors == without_id(old(self)@.sensors, id@),
            final(self)@.paused == old(self)@.paused,
            old(self)@.wf() ==> final(self)@.wf(),
    {
        proof {
            lemma_without_id_shape(old(self)@.sensors, id@);
        }
        let key = id.to_owned();
        let n = self.registered_sensors.len();
        let mut kept: Vec<SensorConfig> = Vec::new();
        let mut i: usize = 0;
        while i < n
            invariant
                n == self.registered_sensors.len(),
                i <= n,
                key@ == id@,
                self@ == old(self)@,
                kept@ == without_id(self.registered_sensors@.subrange(0, i as int), id@),
            decreases n - i,
        {
            let ghost before = self.registered_sensors@.subrange(0, i as int);
            let ghost after = self.registered_sensors@.subrange(0, i + 1);
            assert(after.drop_last() =~= before);
            let entry = &self.registered_sensors[i];
            if entry.id != key {
                kept.push(entry.clone());
            }
            i = i + 1;
        }
        assert(self.registered_sensors@.subrange(0, n as int) =~= self.registered_sensors@);
        self.registered_sensors = kept;
    }

    /// Adds `sensor`; an entry with the same id is replaced, so ids stay
    /// unique. The new entry stands last.
    pub fn add_sensor(&mut self, sensor: SensorConfig)
        ensures
            final(self)@.sensors == upsert(old(self)@.sensors, sensor),
            final(self)@.paused == old(self)@.paused,
            old(self)@.wf() ==> final(self)@.wf(),
    {
        proof {
            lemma_keyed_upsert(old(self)@.sensors, sensor);
        }
        self.remove_sensor(sensor.id.as_str());
        self.registered_sensors.push(sensor);
    }

    /// Empties the registry; the pause flag is kept.
    pub fn cleanup_sensors(&mut self)
        ensures
            final(self)@.sensors == Seq::<SensorConfig>::empty(),
            final(self)@.paused == old(self)@.paused,
            final(self)@.wf(),
    {
        self.registered_sensors.clear();
    }

    /// Gives the entry of id `id` a new label and span in place, keeping its
    /// position; an absent id changes nothing.
    pub fn edit_sensor(&mut self, id: &str, new_label: String, new_start_register: u16, new_end_register: u16)
        ensures
            final(self)@.sensors == edited(
                old(self)@.sensors,
                id@,
                new_label,
                new_start_register,
                new_end_register,
            ),
            final(self)@.paused == old(self)@.paused,
            old(self)@.wf() ==> final(self)@.wf(),
    {
        let key = id.to_owned();
        let n = self.registered_sensors.len();
        let mut i: usize = 0;
        while i < n
            invariant
                n == self.registered_sensors.len(),
                n == old(self)@.sensors.len(),
                i <= n,
                key@ == id@,
                self.paused_agent == old(self)@.paused,
                forall|k: int|
                    0 <= k < n ==> #[trigger] self.registered_sensors@[k] == if k < i {
                        edited(old(self)@.sensors, id@, new_label, new_start_register, new_end_register)[k]
                    } else {
                        old(self)@.sensors[k]
                    },
            decreases n - i,
        {
            if self.registered_sensors[i].id == key {
                let old_entry = &self.registered_sensors[i];
                let entry = SensorConfig {
                    id: old_entry.id.clone(),
                    label: new_label.clone(),
                    s_type: old_entry.s_type.clone(),
                    r_type: old_entry.r_type.clone(),
                    start_register: new_start_register,
                    register: old_entry.register.clone(),
                    end_register: new_end_register,
                };
                self.registered_sensors.set(i, entry);
            }
            i = i + 1;
        }
        assert(self.registered_sensors@ =~= edited(
            old(self)@.sensors,
            id@,
            new_label,
            new_start_register,
            new_end_register,
        ));
        assert(forall|k: int|
            0 <= k < n ==> #[trigger] self.registered_sensors@[k].id == old(self)@.sensors[k].id);
    }

    /// Flips the pause flag and returns its new value.
    pub fn toggle_pause(&mut self) -> (r: bool)
        ensures
            final(self)@.paused == !old(self)@.paused,
            final(self)@.sensors == old(self)@.sensors,
            r == final(self)@.paused,
    {
        self.paused_agent = !self.paused_agent;
        self.paused_agent
    }

    /// A copy of the monitored points, in order.
    pub fn snapshot(&self) -> (r: Vec<SensorConfig>)
        ensures
            r@ == self@.sensors,
    {
        let n = self.registered_sensors.len();
        let mut out: Vec<SensorConfig> = Vec::new();
        let mut i: usize = 0;
        while i < n
            invariant
                n == self.registered_sensors.len(),
                i <= n,
                out@ == self.registered_sensors@.subrange(0, i as int),
            decreases n - i,
        {
            out.push(self.registered_sensors[i].clone());
            i = i + 1;
            assert(out@ =~= self.registered_sensors@.subrange(0, i as int));
        }
        assert(self.registered_sensors@.subrange(0, n as int) =~= self.registered_sensors@);
        out
    }
}

} // verus!
