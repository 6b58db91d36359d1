//! The registry of speech synthesis engines.
//!
//! Several engines are registered and chosen by identifier. An engine is
//! registered with its synthesis handle and, where it offers them, a speaker
//! directory and a dictionary writer.

use vstd::prelude::*;

use crate::domain::model::EngineId;

verus! {

/// The value stored under `key` in an association list: the last entry with
/// that key.
pub open spec fn assoc_get<V>(entries: Seq<(EngineId, V)>, key: Seq<char>) -> Option<V>
    decreases entries.len(),
{
    if entries.len() == 0 {
        None
    } else if entries.last().0@ == key {
        Some(entries.last().1)
    } else {
        assoc_get(entries.drop_last(), key)
    }
}

/// Looks up `key`, newest entry first.
fn assoc_find<'a, V>(entries: &'a Vec<(EngineId, V)>, key: &EngineId) -> (r: Option<&'a V>)
    ensures
        r matches Some(v) ==> assoc_get(entries@, key@) == Some(*v),
        r is None ==> assoc_get(entries@, key@) is None,
{
    let mut i = entries.len();
    assert(entries@.take(i as int) == entries@);
    while i > 0
        invariant
            i <= entries@.len(),
            assoc_get(entries@, key@) == assoc_get(entries@.take(i as int), key@),
        decreases i,
    {
        let ghost pre = entries@.take(i as int);
        assert(pre.drop_last() == entries@.take(i - 1));
        if entries[i - 1].0.same(key) {
            return Some(&entries[i - 1].1);
        }
        i = i - 1;
    }
    None
}

/// The engines registered, by identifier.
pub struct TtsEngineRegistry<E, D, W> {
    /// The engine used when none is found for an identifier.
    default_engine: EngineId,
    /// The identifiers in the order they were first registered.
    order: Vec<EngineId>,
    engines: Vec<(EngineId, E)>,
    speaker_dirs: Vec<(EngineId, D)>,
    dict_writers: Vec<(EngineId, W)>,
}

impl<E, D, W> TtsEngineRegistry<E, D, W> {
    /// The identifier of the fallback engine.
    pub closed spec fn default_id(&self) -> Seq<char> {
        self.default_engine@
    }

    /// The registered identifiers, in the order of their first registration.
    pub closed spec fn order(&self) -> Seq<Seq<char>> {
        self.order@.map_values(|id: EngineId| id@)
    }

    /// The engine registered under `id`.
    pub closed spec fn engine_of(&self, id: Seq<char>) -> Option<E> {
        assoc_get(self.engines@, id)
    }

    /// The speaker directory registered under `id`.
    pub closed spec fn dir_of(&self, id: Seq<char>) -> Option<D> {
        assoc_get(self.speaker_dirs@, id)
    }

    /// The dictionary writer registered under `id`.
    pub closed spec fn writer_of(&self, id: Seq<char>) -> Option<W> {
        assoc_get(self.dict_writers@, id)
    }

    /// The registry's invariant: every identifier occurs once in the order,
    /// and the order holds exactly the identifiers with an engine.
    pub closed spec fn wf(&self) -> bool {
        &&& self.order().no_duplicates()
        &&& forall|id: Seq<char>| #[trigger] self.order().contains(id) <==> self.engine_of(id) is Some
    }

    /// What one registration does: `after` is `before` with `call` (an
    /// identifier, an engine, and optionally a speaker directory and a
    /// dictionary writer) registered. A new identifier goes to the end of
    /// the order; a known one keeps its place. The engine is replaced; the
    /// directory and the writer are replaced only where one is given.
    pub open spec fn registers(
        before: Self,
        after: Self,
        call: (Seq<char>, E, Option<D>, Option<W>),
    ) -> bool {
        let (id, engine, speaker_dir, dict_writer) = call;
        &&& after.default_id() == before.default_id()
        &&& after.order() == if before.order().contains(id) {
            before.order()
        } else {
            before.order().push(id)
        }
        &&& forall|k: Seq<char>| #[trigger]
            after.engine_of(k) == if k == id {
                Some(engine)
            } else {
                before.engine_of(k)
            }
        &&& forall|k: Seq<char>| #[trigger]
            after.dir_of(k) == if k == id && speaker_dir is Some {
                speaker_dir
            } else {
                before.dir_of(k)
            }
        &&& forall|k: Seq<char>| #[trigger]
            after.writer_of(k) == if k == id && dict_writer is Some {
                dict_writer
            } else {
                before.writer_of(k)
            }
    }

    /// A well-formed registry lists each identifier once, and lists exactly
    /// the identifiers that have an engine.
    pub proof fn lemma_wf(&self)
        requires
            self.wf(),
        ensures
            self.order().no_duplicates(),
            forall|k: Seq<char>| #[trigger] self.order().contains(k) <==> self.engine_of(k) is Some,
    {
    }

    /// The speaker directories of the identifiers in `ids`, in that order,
    /// leaving out those without one.
    pub open spec fn dirs_along(&self, ids: Seq<Seq<char>>) -> Seq<(Seq<char>, D)>
        decreases ids.len(),
    {
        if ids.len() == 0 {
            Seq::empty()
        } else {
            let rest = self.dirs_along(ids.drop_last());
            match self.dir_of(ids.last()) {
                Some(d) => rest.push((ids.last(), d)),
                None => rest,
            }
        }
    }

    /// An empty registry whose fallback is `default_engine`, which is to be
    /// registered afterwards.
    pub fn new(default_engine: EngineId) -> (r: Self)
        ensures
            r.wf(),
            is_fresh(r),
            r.default_id() == default_engine@,
            r.order() == Seq::<Seq<char>>::empty(),
            forall|id: Seq<char>| #[trigger] r.engine_of(id) is None,
            forall|id: Seq<char>| #[trigger] r.dir_of(id) is None,
            forall|id: Seq<char>| #[trigger] r.writer_of(id) is None,
    {
        let r = TtsEngineRegistry {
            default_engine,
            order: Vec::new(),
            engines: Vec::new(),
            speaker_dirs: Vec::new(),
            dict_writers: Vec::new(),
        };
        assert(r.order() =~= Seq::<Seq<char>>::empty());
        r
    }

    /// Registers `engine` under `id`, with its speaker directory and
    /// dictionary writer where it has them.
    ///
    /// A new identifier goes to the end of the order; registering an
    /// identifier again replaces what was given for it and keeps its place.
    pub fn register(
        &mut self,
        id: EngineId,
        engine: E,
        speaker_dir: Option<D>,
        dict_writer: Option<W>,
    )
        requires
            old(self).wf(),
        ensures
            final(self).wf(),
            Self::registers(*old(self), *final(self), (id@, engine, speaker_dir, dict_writer)),
    {
        let known = self.is_registered(&id);
        let ghost old_order = self.order();
        if !known {
            self.order.push(id.copied());
            assert(self.order() =~= old_order.push(id@));
        }
        self.engines.push((id.copied(), engine));
        match speaker_dir {
            Some(dir) => {
                self.speaker_dirs.push((id.copied(), dir));
            },
            None => {},
        }
        match dict_writer {
            Some(writer) => {
                self.dict_writers.push((id, writer));
            },
            None => {},
        }
        assert forall|k: Seq<char>| #[trigger] self.engine_of(k) == if k == id@ {
            Some(engine)
        } else {
            old(self).engine_of(k)
        } by {
            assert(self.engines@.drop_last() == old(self).engines@);
        }
        assert forall|k: Seq<char>| #[trigger] self.dir_of(k) == if k == id@ && speaker_dir is Some {
            speaker_dir
        } else {
            old(self).dir_of(k)
        } by {
            if speaker_dir is Some {
                assert(self.speaker_dirs@.drop_last() == old(self).speaker_dirs@);
            }
        }
        assert forall|k: Seq<char>| #[trigger] self.writer_of(k) == if k == id@ && dict_writer is Some {
            dict_writer
        } else {
            old(self).writer_of(k)
        } by {
            if dict_writer is Some {
                assert(self.dict_writers@.drop_last() == old(self).dict_writers@);
            }
        }
        assert(self.order().no_duplicates()) by {
            if !known {
                assert forall|a: int, b: int|
                    0 <= a < b < self.order().len() implies self.order()[a] != self.order()[b] by {
                    if b == self.order().len() - 1 {
                        assert(old_order.contains(old_order[a]));
                    }
                }
            }
        }
        assert forall|k: Seq<char>| #[trigger] self.order().contains(k) <==> self.engine_of(k) is Some by {
            if !known && k == id@ {
                assert(self.order()[self.order().len() - 1] == k);
            }
            if !known && k != id@ && self.order().contains(k) {
                let j = choose|j: int| 0 <= j < self.order().len() && self.order()[j] == k;
                assert(old_order[j] == k);
            }
            if !known && k != id@ && old_order.contains(k) {
                let j = choose|j: int| 0 <= j < old_order.len() && old_order[j] == k;
                assert(self.order()[j] == k);
            }
        }
    }

    /// The engine registered under `id`.
    pub fn engine(&self, id: &EngineId) -> (r: Option<&E>)
        ensures
            r matches Some(e) ==> self.engine_of(id@) == Some(*e),
            r is None ==> self.engine_of(id@) is None,
    {
        assoc_find(&self.engines, id)
    }

    /// The engine registered under `id`, or else the fallback engine.
    ///
    /// The fallback engine must be registered when `id` is not: a registry
    /// without it has no engine to offer.
    pub fn engine_or_default(&self, id: &EngineId) -> (r: &E)
        requires
            self.engine_of(id@) is Some || self.engine_of(self.default_id()) is Some,
        ensures
            *r == match self.engine_of(id@) {
                Some(e) => e,
                None => self.engine_of(self.default_id())->0,
            },
    {
        match assoc_find(&self.engines, id) {
            Some(e) => e,
            None => {
                let d = assoc_find(&self.engines, &self.default_engine);
                match d {
                    Some(e) => e,
                    None => vstd::pervasive::unreached(),
                }
            },
        }
    }

    /// The dictionary writer registered under `id`.
    pub fn dict_writer(&self, id: &EngineId) -> (r: Option<&W>)
        ensures
            r matches Some(w) ==> self.writer_of(id@) == Some(*w),
            r is None ==> self.writer_of(id@) is None,
    {
        assoc_find(&self.dict_writers, id)
    }

    /// The registered speaker directories, in registration order.
    pub fn speaker_dirs_in_order(&self) -> (r: Vec<(EngineId, &D)>)
        ensures
            r@.len() == self.dirs_along(self.order()).len(),
            forall|i: int|
                0 <= i < r@.len() ==> (#[trigger] r@[i]).0@ == self.dirs_along(self.order())[i].0
                    && *r@[i].1 == self.dirs_along(self.order())[i].1,
    {
        let mut out: Vec<(EngineId, &D)> = Vec::new();
        let n = self.order.len();
        for i in 0..n
            invariant
                n == self.order@.len(),
                self.order().len() == n,
                out@.len() == self.dirs_along(self.order().take(i as int)).len(),
                forall|j: int|
                    0 <= j < out@.len() ==> (#[trigger] out@[j]).0@ == self.dirs_along(
                        self.order().take(i as int),
                    )[j].0 && *out@[j].1 == self.dirs_along(self.order().take(i as int))[j].1,
        {
            let ghost ids = self.order().take(i + 1);
            assert(ids.drop_last() == self.order().take(i as int));
            assert(ids.last() == self.order@[i as int]@);
            match assoc_find(&self.speaker_dirs, &self.order[i]) {
                Some(d) => {
                    out.push((self.order[i].copied(), d));
                },
                None => {},
            }
        }
        assert(self.order().take(n as int) == self.order());
        out
    }

    /// Whether the fallback engine is registered.
    pub fn is_default_registered(&self) -> (r: bool)
        ensures
            r == self.engine_of(self.default_id()) is Some,
    {
        assoc_find(&self.engines, &self.default_engine).is_some()
    }

    /// Whether an engine is registered under `id`.
    pub fn is_registered(&self, id: &EngineId) -> (r: bool)
        ensures
            r == self.engine_of(id@) is Some,
    {
        assoc_find(&self.engines, id).is_some()
    }
}

/// The identifiers of `calls`, each at its first occurrence.
pub open spec fn first_occurrences<E, D, W>(calls: Seq<(Seq<char>, E, Option<D>, Option<W>)>) -> Seq<
    Seq<char>,
>
    decreases calls.len(),
{
    if calls.len() == 0 {
        Seq::empty()
    } else {
        let earlier = first_occurrences(calls.drop_last());
        if earlier.contains(calls.last().0) {
            earlier
        } else {
            earlier.push(calls.last().0)
        }
    }
}

/// The engine of the last call in `calls` that registered `id`.
pub open spec fn last_engine<E, D, W>(calls: Seq<(Seq<char>, E, Option<D>, Option<W>)>, id: Seq<char>) -> Option<E>
    decreases calls.len(),
{
    if calls.len() == 0 {
        None
    } else if calls.last().0 == id {
        Some(calls.last().1)
    } else {
        last_engine(calls.drop_last(), id)
    }
}

/// The speaker directory of the last call in `calls` that registered `id`
/// with one.
pub open spec fn last_dir<E, D, W>(calls: Seq<(Seq<char>, E, Option<D>, Option<W>)>, id: Seq<char>) -> Option<D>
    decreases calls.len(),
{
    if calls.len() == 0 {
        None
    } else if calls.last().0 == id && calls.last().2 is Some {
        calls.last().2
    } else {
        last_dir(calls.drop_last(), id)
    }
}

/// The dictionary writer of the last call in `calls` that registered `id`
/// with one.
pub open spec fn last_writer<E, D, W>(calls: Seq<(Seq<char>, E, Option<D>, Option<W>)>, id: Seq<char>) -> Option<W>
    decreases calls.len(),
{
    if calls.len() == 0 {
        None
    } else if calls.last().0 == id && calls.last().3 is Some {
        calls.last().3
    } else {
        last_writer(calls.drop_last(), id)
    }
}

/// A registry freshly made by `new`: nothing registered.
pub open spec fn is_fresh<E, D, W>(r: TtsEngineRegistry<E, D, W>) -> bool {
    &&& r.order() == Seq::<Seq<char>>::empty()
    &&& forall|k: Seq<char>| #[trigger] r.engine_of(k) is None
    &&& forall|k: Seq<char>| #[trigger] r.dir_of(k) is None
    &&& forall|k: Seq<char>| #[trigger] r.writer_of(k) is None
}

/// `regs` are the states of a registry that `new` made and `calls` then
/// went through, one `register` call after another.
pub open spec fn registry_history<E, D, W>(
    regs: Seq<TtsEngineRegistry<E, D, W>>,
    calls: Seq<(Seq<char>, E, Option<D>, Option<W>)>,
) -> bool {
    &&& regs.len() == calls.len() + 1
    &&& is_fresh(regs[0])
    &&& forall|i: int|
        0 <= i < calls.len() ==> TtsEngineRegistry::registers(
            #[trigger] regs[i],
            regs[i + 1],
            calls[i],
        )
}

proof fn lemma_last_engine_some<E, D, W>(calls: Seq<(Seq<char>, E, Option<D>, Option<W>)>, id: Seq<char>)
    ensures
        last_engine(calls, id) is Some <==> exists|i: int| 0 <= i < calls.len() && calls[i].0 == id,
    decreases calls.len(),
{
    if calls.len() > 0 {
        lemma_last_engine_some(calls.drop_last(), id);
        if exists|i: int| 0 <= i < calls.len() && calls[i].0 == id {
            let i = choose|i: int| 0 <= i < calls.len() && calls[i].0 == id;
            if i < calls.len() - 1 {
                assert(calls.drop_last()[i].0 == id);
            }
        }
        if exists|i: int| 0 <= i < calls.drop_last().len() && calls.drop_last()[i].0 == id {
            let i = choose|i: int| 0 <= i < calls.drop_last().len() && calls.drop_last()[i].0 == id;
            assert(calls[i].0 == id);
        }
    }
}

proof fn lemma_last_writer_some<E, D, W>(calls: Seq<(Seq<char>, E, Option<D>, Option<W>)>, id: Seq<char>)
    ensures
        last_writer(calls, id) is Some <==> exists|i: int|
            0 <= i < calls.len() && calls[i].0 == id && calls[i].3 is Some,
    decreases calls.len(),
{
    if calls.len() > 0 {
        lemma_last_writer_some(calls.drop_last(), id);
        if exists|i: int| 0 <= i < calls.len() && calls[i].0 == id && calls[i].3 is Some {
            let i = choose|i: int| 0 <= i < calls.len() && calls[i].0 == id && calls[i].3 is Some;
            if i < calls.len() - 1 {
                assert(calls.drop_last()[i].0 == id);
            }
        }
        if exists|i: int|
            0 <= i < calls.drop_last().len() && calls.drop_last()[i].0 == id
                && calls.drop_last()[i].3 is Some {
            let i = choose|i: int|
                0 <= i < calls.drop_last().len() && calls.drop_last()[i].0 == id
                    && calls.drop_last()[i].3 is Some;
            assert(calls[i].0 == id);
        }
    }
}

proof fn lemma_history_state<E, D, W>(
    regs: Seq<TtsEngineRegistry<E, D, W>>,
    calls: Seq<(Seq<char>, E, Option<D>, Option<W>)>,
)
    requires
        registry_history(regs, calls),
    ensures
        regs.last().default_id() == regs[0].default_id(),
        regs.last().order() == first_occurrences(calls),
        forall|k: Seq<char>| #[trigger] regs.last().engine_of(k) == last_engine(calls, k),
        forall|k: Seq<char>| #[trigger] regs.last().dir_of(k) == last_dir(calls, k),
        forall|k: Seq<char>| #[trigger] regs.last().writer_of(k) == last_writer(calls, k),
    decreases calls.len(),
{
    if calls.len() > 0 {
        let n = calls.len() - 1;
        let pre = regs.drop_last();
        let pc = calls.drop_last();
        assert forall|i: int| 0 <= i < pc.len() implies TtsEngineRegistry::registers(
            #[trigger] pre[i],
            pre[i + 1],
            pc[i],
        ) by {
            assert(pre[i] == regs[i]);
            assert(pre[i + 1] == regs[i + 1]);
            assert(pc[i] == calls[i]);
        }
        lemma_history_state(pre, pc);
        assert(pre.last() == regs[n]);
        assert(TtsEngineRegistry::registers(regs[n], regs[n + 1], calls[n]));
    }
}

/// After `new` and a series of `register` calls: an identifier has an
/// engine exactly when some call registered it (the fallback identifier
/// alone does not count); its engine is that of the last such call; its
/// speaker directory and dictionary writer are those of the last call that
/// gave one, and it has one exactly when some call gave one; the order
/// lists each registered identifier once, at its first registration.
pub proof fn lemma_registration_history<E, D, W>(
    regs: Seq<TtsEngineRegistry<E, D, W>>,
    calls: Seq<(Seq<char>, E, Option<D>, Option<W>)>,
)
    requires
        registry_history(regs, calls),
    ensures
        regs.last().default_id() == regs[0].default_id(),
        regs.last().order() == first_occurrences(calls),
        forall|k: Seq<char>|
            #[trigger] regs.last().engine_of(k) is Some <==> exists|i: int|
                0 <= i < calls.len() && calls[i].0 == k,
        forall|k: Seq<char>| #[trigger] regs.last().engine_of(k) == last_engine(calls, k),
        forall|k: Seq<char>| #[trigger] regs.last().dir_of(k) == last_dir(calls, k),
        forall|k: Seq<char>| #[trigger] regs.last().writer_of(k) == last_writer(calls, k),
        forall|k: Seq<char>|
            #[trigger] regs.last().writer_of(k) is Some <==> exists|i: int|
                0 <= i < calls.len() && calls[i].0 == k && calls[i].3 is Some,
{
    lemma_history_state(regs, calls);
    assert forall|k: Seq<char>|
        #[trigger] regs.last().engine_of(k) is Some <==> exists|i: int|
            0 <= i < calls.len() && calls[i].0 == k by {
        lemma_last_engine_some(calls, k);
    }
    assert forall|k: Seq<char>|
        #[trigger] regs.last().writer_of(k) is Some <==> exists|i: int|
            0 <= i < calls.len() && calls[i].0 == k && calls[i].3 is Some by {
        lemma_last_writer_some(calls, k);
    }
}

/// Registering never unregisters: an identifier with an engine keeps one,
/// and with it its speaker directory and dictionary writer where the call
/// gave none (for another identifier, they stay as they were).
pub proof fn lemma_register_keeps<E, D, W>(
    before: TtsEngineRegistry<E, D, W>,
    after: TtsEngineRegistry<E, D, W>,
    call: (Seq<char>, E, Option<D>, Option<W>),
    k: Seq<char>,
)
    requires
        TtsEngineRegistry::registers(before, after, call),
    ensures
        before.engine_of(k) is Some ==> after.engine_of(k) is Some,
        before.order().contains(k) ==> after.order().contains(k),
        call.2 is None ==> after.dir_of(k) == before.dir_of(k),
        call.3 is None ==> after.writer_of(k) == before.writer_of(k),
        k != call.0 ==> after.engine_of(k) == before.engine_of(k),
{
    if before.order().contains(k) && !before.order().contains(call.0) {
        let j = choose|j: int| 0 <= j < before.order().len() && before.order()[j] == k;
        assert(after.order()[j] == k);
    }
}


} // verus!
