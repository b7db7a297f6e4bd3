//! Building the catalog from the configured zones.
//!
//! Zones are loaded in the order of the configuration. The first zone that
//! fails to load ends the build with an error that names it: a catalog with
//! some of the zones missing is never handed out.

use vstd::prelude::*;
use vstd::string::StringExecFns;
use crate::catalog::lower;
use crate::catalog::Catalog;
use crate::config::ZoneDeclaration;

verus! {

/// A zone that could not be loaded, and why.
#[derive(Clone, Debug, PartialEq, Eq)]
pub struct ZoneLoadError {
    pub zone: String,
    pub detail: String,
}

/// A `ZoneLoadError` with its texts as sequences of characters.
pub struct ZoneLoadErrorView {
    pub zone: Seq<char>,
    pub detail: Seq<char>,
}

impl View for ZoneLoadError {
    type V = ZoneLoadErrorView;

    open spec fn view(&self) -> ZoneLoadErrorView {
        ZoneLoadErrorView { zone: self.zone@, detail: self.detail@ }
    }
}

/// What is said of a zone that was never loaded.
pub open spec fn not_loaded() -> Seq<char> {
    "zone was not loaded"@
}

impl ZoneLoadErrorView {
    /// The error in words.
    pub open spec fn message(self) -> Seq<char> {
        "could not load zone "@ + self.zone + ": "@ + self.detail
    }
}

impl ZoneLoadError {
    /// The error in words, on one line.
    pub fn message(&self) -> (text: String)
        ensures
            text@ == self@.message(),
    {
        let mut text = String::from_str("could not load zone ");
        text.append(self.zone.as_str());
        text.append(": ");
        text.append(self.detail.as_str());
        text
    }
}

/// The names of the zones, as declared.
pub open spec fn zone_names(zones: Seq<ZoneDeclaration>) -> Seq<Seq<char>> {
    zones.map_values(|zone: ZoneDeclaration| zone.name@)
}

/// The catalog that loading the zones `names`, in order, leads to when the
/// loads end as `outcomes` say, starting from `catalog`. The first failed
/// load is the result, and so is the first zone for which there is no outcome.
pub open spec fn build_from<A>(
    names: Seq<Seq<char>>,
    outcomes: Seq<Result<A, String>>,
    catalog: Map<Seq<char>, A>,
) -> Result<Map<Seq<char>, A>, ZoneLoadErrorView>
    decreases names.len(),
{
    if names.len() == 0 {
        Ok(catalog)
    } else if outcomes.len() == 0 {
        Err(ZoneLoadErrorView { zone: names[0], detail: not_loaded() })
    } else {
        match outcomes[0] {
            Ok(authority) => build_from(
                names.drop_first(),
                outcomes.drop_first(),
                catalog.insert(lower(names[0]), authority),
            ),
            Err(detail) => Err(ZoneLoadErrorView { zone: names[0], detail: detail@ }),
        }
    }
}

/// The catalog of the zones `names`, or the first zone that failed.
pub open spec fn spec_build<A>(names: Seq<Seq<char>>, outcomes: Seq<Result<A, String>>) -> Result<
    Map<Seq<char>, A>,
    ZoneLoadErrorView,
> {
    build_from(names, outcomes, Map::empty())
}

/// A build under way: the zones, how many of them are loaded, the catalog of
/// those, and the failure that ended the build, if one did.
#[derive(Debug)]
pub struct ZoneCatalogBuilder<A> {
    pub zones: Vec<ZoneDeclaration>,
    pub loaded: usize,
    pub catalog: Catalog<A>,
    pub failure: Option<ZoneLoadError>,
}

impl<A> ZoneCatalogBuilder<A> {
    /// The zones loaded so far are in the catalog, and a failure is that of the zone that was due.
    pub open spec fn wf(&self) -> bool {
        &&& self.loaded <= self.zones@.len()
        &&& self.catalog.wf()
        &&& self.failure is Some ==> self.loaded < self.zones@.len() && self.failure->0.zone@
            == self.zones@[self.loaded as int].name@
    }

    /// The index of the zone to load now: none once a zone has failed or all
    /// are loaded.
    pub open spec fn spec_next(&self) -> Option<usize> {
        if self.failure is None && self.loaded < self.zones@.len() {
            Some(self.loaded)
        } else {
            None
        }
    }

    /// Starts with every zone ahead and an empty catalog.
    pub fn new(zones: Vec<ZoneDeclaration>) -> (builder: ZoneCatalogBuilder<A>)
        ensures
            builder.wf(),
            builder.zones == zones,
            builder.loaded == 0,
            builder.catalog@ == Map::<Seq<char>, A>::empty(),
            builder.failure is None,
    {
        ZoneCatalogBuilder { zones, loaded: 0, catalog: Catalog::new(), failure: None }
    }

    /// The zone to load now.
    pub fn next(&self) -> (zone: Option<&ZoneDeclaration>)
        requires
            self.wf(),
        ensures
            match zone {
                Some(zone) => self.spec_next() is Some && *zone == self.zones@[self.loaded as int],
                None => self.spec_next() is None,
            },
    {
        if self.failure.is_none() && self.loaded < self.zones.len() {
            Some(&self.zones[self.loaded])
        } else {
            None
        }
    }

    /// Registers the authority of the zone that was due. Where no zone is
    /// due nothing changes.
    pub fn loaded(&mut self, authority: A)
        requires
            old(self).wf(),
        ensures
            final(self).wf(),
            final(self).zones == old(self).zones,
            final(self).failure == old(self).failure,
            match old(self).spec_next() {
                Some(i) => final(self).loaded == i + 1 && final(self).catalog@ == old(
                    self,
                ).catalog@.insert(lower(old(self).zones@[i as int].name@), authority),
                None => final(self).loaded == old(self).loaded && final(self).catalog@ == old(
                    self,
                ).catalog@,
            },
    {
        if self.failure.is_none() && self.loaded < self.zones.len() {
            self.catalog.upsert(self.zones[self.loaded].name.as_str(), authority);
            self.loaded = self.loaded + 1;
        }
    }

    /// Records that the zone that was due could not be loaded, which ends
    /// the build. Where no zone is due nothing changes.
    pub fn failed(&mut self, detail: String)
        requires
            old(self).wf(),
        ensures
            final(self).wf(),
            final(self).zones == old(self).zones,
            final(self).loaded == old(self).loaded,
            final(self).catalog@ == old(self).catalog@,
            final(self).spec_next() is None,
            match old(self).spec_next() {
                Some(i) => final(self).failure is Some && final(self).failure->0@ == (
                ZoneLoadErrorView { zone: old(self).zones@[i as int].name@, detail: detail@ }),
                None => final(self).failure == old(self).failure,
            },
    {
        if self.failure.is_none() && self.loaded < self.zones.len() {
            let zone = self.zones[self.loaded].name.clone();
            self.failure = Some(ZoneLoadError { zone, detail });
        }
    }

    /// Ends the build: the catalog where every zone is loaded, else the
    /// failure, or the first zone that was never loaded.
    pub fn finish(self) -> (built: Result<Catalog<A>, ZoneLoadError>)
        requires
            self.wf(),
        ensures
            match built {
                Ok(catalog) => self.failure is None && self.loaded == self.zones@.len()
                    && catalog.wf() && catalog@ == self.catalog@,
                Err(error) => match self.failure {
                    Some(failure) => error == failure,
                    None => self.loaded < self.zones@.len() && error@ == (ZoneLoadErrorView {
                        zone: self.zones@[self.loaded as int].name@,
                        detail: not_loaded(),
                    }),
                },
            },
    {
        match self.failure {
            Some(failure) => Err(failure),
            None => {
                if self.loaded < self.zones.len() {
                    let zone = self.zones[self.loaded].name.clone();
                    Err(ZoneLoadError { zone, detail: String::from_str("zone was not loaded") })
                } else {
                    Ok(self.catalog)
                }
            },
        }
    }
}

/// Builds the catalog of `zones` from what loading each of them gave:
/// `outcomes[i]` is the authority of `zones[i]`, or why it could not be
/// loaded. Outcomes after the first failure are not looked at.
pub fn build<A>(zones: Vec<ZoneDeclaration>, outcomes: Vec<Result<A, String>>) -> (built: Result<
    Catalog<A>,
    ZoneLoadError,
>)
    ensures
        match built {
            Ok(catalog) => catalog.wf() && spec_build(zone_names(zones@), outcomes@) == Ok::<
                Map<Seq<char>, A>,
                ZoneLoadErrorView,
            >(catalog@),
            Err(error) => spec_build(zone_names(zones@), outcomes@) == Err::<
                Map<Seq<char>, A>,
                ZoneLoadErrorView,
            >(error@),
        },
{
    let ghost names = zone_names(zones@);
    let ghost all = outcomes@;
    let mut builder: ZoneCatalogBuilder<A> = ZoneCatalogBuilder::new(zones);
    assert(names.skip(0) =~= names);
    assert(all.skip(0) =~= all);
    for outcome in it: outcomes
        invariant
            builder.wf(),
            names == zone_names(builder.zones@),
            it.seq() == all,
            builder.failure is None ==> builder.loaded == if it.index@ <= names.len() {
                it.index@
            } else {
                names.len() as int
            },
            builder.failure is None ==> spec_build(names, all) == build_from(
                names.skip(builder.loaded as int),
                all.skip(it.index@),
                builder.catalog@,
            ),
            builder.failure is Some ==> spec_build(names, all) == Err::<
                Map<Seq<char>, A>,
                ZoneLoadErrorView,
            >(builder.failure->0@),
    {
        proof {
            if builder.failure is None {
                let left = names.skip(builder.loaded as int);
                let rest = all.skip(it.index@);
                if left.len() > 0 {
                    assert(left[0] == builder.zones@[builder.loaded as int].name@);
                    assert(rest[0] == outcome);
                    assert(left.drop_first() =~= names.skip(builder.loaded + 1));
                    assert(rest.drop_first() =~= all.skip(it.index@ + 1));
                }
            }
        }
        match outcome {
            Ok(authority) => builder.loaded(authority),
            Err(detail) => builder.failed(detail),
        }
    }
    proof {
        if builder.failure is None {
            assert(all.skip(all.len() as int).len() == 0);
        }
    }
    builder.finish()
}

/// Whether the first `count` outcomes are all there and all loaded.
pub open spec fn all_loaded<A>(outcomes: Seq<Result<A, String>>, count: nat) -> bool {
    count <= outcomes.len() && forall|i: int| 0 <= i < count ==> (#[trigger] outcomes[i]) is Ok
}

/// Whether one of the zones has this name, when lowered.
pub open spec fn declares(names: Seq<Seq<char>>, key: Seq<char>) -> bool {
    exists|i: int| 0 <= i < names.len() && lower(#[trigger] names[i]) == key
}

proof fn declares_by_first_or_rest(names: Seq<Seq<char>>, key: Seq<char>)
    requires
        names.len() > 0,
    ensures
        declares(names, key) <==> lower(names[0]) == key || declares(names.drop_first(), key),
{
    let rest = names.drop_first();
    if declares(names, key) {
        let i = choose|i: int| 0 <= i < names.len() && lower(#[trigger] names[i]) == key;
        if i > 0 {
            assert(lower(rest[i - 1]) == key);
        }
    }
    if declares(rest, key) {
        let i = choose|i: int| 0 <= i < rest.len() && lower(#[trigger] rest[i]) == key;
        assert(lower(names[i + 1]) == key);
    }
    if lower(names[0]) == key {
        assert(declares(names, key));
    }
}

proof fn all_loaded_by_first_and_rest<A>(outcomes: Seq<Result<A, String>>, count: nat)
    requires
        count > 0,
        outcomes.len() > 0,
    ensures
        all_loaded(outcomes, count) <==> outcomes[0] is Ok && all_loaded(
            outcomes.drop_first(),
            (count - 1) as nat,
        ),
{
    let rest = outcomes.drop_first();
    if all_loaded(outcomes, count) {
        assert(outcomes[0] is Ok);
        assert forall|i: int| 0 <= i < count - 1 implies (#[trigger] rest[i]) is Ok by {
            assert(outcomes[i + 1] is Ok);
        }
    }
    if outcomes[0] is Ok && all_loaded(rest, (count - 1) as nat) {
        assert forall|i: int| 0 <= i < count implies (#[trigger] outcomes[i]) is Ok by {
            if i > 0 {
                assert(rest[i - 1] is Ok);
            }
        }
    }
}

proof fn build_from_succeeds<A>(
    names: Seq<Seq<char>>,
    outcomes: Seq<Result<A, String>>,
    catalog: Map<Seq<char>, A>,
)
    ensures
        build_from(names, outcomes, catalog) is Ok <==> all_loaded(outcomes, names.len()),
    decreases names.len(),
{
    if names.len() > 0 && outcomes.len() > 0 {
        all_loaded_by_first_and_rest(outcomes, names.len());
        if let Ok(authority) = outcomes[0] {
            build_from_succeeds(
                names.drop_first(),
                outcomes.drop_first(),
                catalog.insert(lower(names[0]), authority),
            );
        }
    }
}

proof fn build_from_holds<A>(
    names: Seq<Seq<char>>,
    outcomes: Seq<Result<A, String>>,
    catalog: Map<Seq<char>, A>,
    key: Seq<char>,
)
    requires
        build_from(names, outcomes, catalog) is Ok,
    ensures
        build_from(names, outcomes, catalog)->Ok_0.contains_key(key) <==> catalog.contains_key(key)
            || declares(names, key),
        !declares(names, key) && catalog.contains_key(key) ==> build_from(
            names,
            outcomes,
            catalog,
        )->Ok_0[key] == catalog[key],
    decreases names.len(),
{
    if names.len() > 0 {
        declares_by_first_or_rest(names, key);
        build_from_holds(
            names.drop_first(),
            outcomes.drop_first(),
            catalog.insert(lower(names[0]), outcomes[0]->Ok_0),
            key,
        );
    }
}

proof fn build_from_keeps_last<A>(
    names: Seq<Seq<char>>,
    outcomes: Seq<Result<A, String>>,
    catalog: Map<Seq<char>, A>,
    i: int,
)
    requires
        build_from(names, outcomes, catalog) is Ok,
        0 <= i < names.len(),
        !declares(names.skip(i + 1), lower(names[i])),
    ensures
        i < outcomes.len(),
        outcomes[i] is Ok,
        build_from(names, outcomes, catalog)->Ok_0.contains_key(lower(names[i])),
        build_from(names, outcomes, catalog)->Ok_0[lower(names[i])] == outcomes[i]->Ok_0,
    decreases names.len(),
{
    let rest_names = names.drop_first();
    let rest = outcomes.drop_first();
    let next = catalog.insert(lower(names[0]), outcomes[0]->Ok_0);
    if i == 0 {
        assert(names.skip(1) =~= rest_names);
        build_from_holds(rest_names, rest, next, lower(names[0]));
    } else {
        assert(rest_names.skip(i) =~= names.skip(i + 1));
        assert(rest_names[i - 1] == names[i]);
        build_from_keeps_last(rest_names, rest, next, i - 1);
        assert(rest[i - 1] == outcomes[i]);
    }
}

proof fn build_from_fails<A>(
    names: Seq<Seq<char>>,
    outcomes: Seq<Result<A, String>>,
    catalog: Map<Seq<char>, A>,
) -> (k: int)
    requires
        build_from(names, outcomes, catalog) is Err,
    ensures
        0 <= k < names.len(),
        all_loaded(outcomes, k as nat),
        build_from(names, outcomes, catalog)->Err_0.zone == names[k],
        k < outcomes.len() ==> outcomes[k] is Err && build_from(
            names,
            outcomes,
            catalog,
        )->Err_0.detail == outcomes[k]->Err_0@,
        k >= outcomes.len() ==> build_from(names, outcomes, catalog)->Err_0.detail == not_loaded(),
    decreases names.len(),
{
    if outcomes.len() == 0 {
        0
    } else if let Ok(authority) = outcomes[0] {
        let rest = outcomes.drop_first();
        let k = build_from_fails(
            names.drop_first(),
            rest,
            catalog.insert(lower(names[0]), authority),
        );
        all_loaded_by_first_and_rest(outcomes, (k + 1) as nat);
        if k < rest.len() {
            assert(outcomes[k + 1] == rest[k]);
        }
        k + 1
    } else {
        0
    }
}

/// A build succeeds exactly when every zone was loaded. Its catalog then
/// holds the lowered names of the zones and no others.
pub proof fn build_succeeds_when_every_zone_loads<A>(
    names: Seq<Seq<char>>,
    outcomes: Seq<Result<A, String>>,
)
    ensures
        spec_build(names, outcomes) is Ok <==> all_loaded(outcomes, names.len()),
        spec_build(names, outcomes) matches Ok(built) ==> forall|key: Seq<char>| #[trigger]
            built.contains_key(key) <==> declares(names, key),
{
    let empty = Map::<Seq<char>, A>::empty();
    build_from_succeeds(names, outcomes, empty);
    if let Ok(built) = spec_build(names, outcomes) {
        assert forall|key: Seq<char>| #[trigger] built.contains_key(key) <==> declares(
            names,
            key,
        ) by {
            build_from_holds(names, outcomes, empty, key);
        }
    }
}

/// The last declaration of a zone wins: in the catalog of a build, a zone
/// that is not declared again later has the authority it was loaded with.
pub proof fn last_declaration_wins<A>(
    names: Seq<Seq<char>>,
    outcomes: Seq<Result<A, String>>,
    i: int,
)
    requires
        spec_build(names, outcomes) is Ok,
        0 <= i < names.len(),
        !declares(names.skip(i + 1), lower(names[i])),
    ensures
        i < outcomes.len(),
        outcomes[i] is Ok,
        spec_build(names, outcomes)->Ok_0.contains_key(lower(names[i])),
        spec_build(names, outcomes)->Ok_0[lower(names[i])] == outcomes[i]->Ok_0,
{
    build_from_keeps_last(names, outcomes, Map::<Seq<char>, A>::empty(), i);
}

/// A build fails with the first zone that did not load, and names it: the
/// zones before it loaded, and the error says what its load said.
pub proof fn build_fails_at_first_failed_zone<A>(
    names: Seq<Seq<char>>,
    outcomes: Seq<Result<A, String>>,
) -> (k: int)
    requires
        spec_build(names, outcomes) is Err,
    ensures
        0 <= k < names.len(),
        all_loaded(outcomes, k as nat),
        spec_build(names, outcomes)->Err_0.zone == names[k],
        k < outcomes.len() ==> outcomes[k] is Err && spec_build(names, outcomes)->Err_0.detail
            == outcomes[k]->Err_0@,
        k >= outcomes.len() ==> spec_build(names, outcomes)->Err_0.detail == not_loaded(),
{
    build_from_fails(names, outcomes, Map::<Seq<char>, A>::empty())
}

/// Two zones of the same name, both loaded, give a catalog with exactly one
/// entry, and it is the second zone's authority.
pub proof fn same_name_twice_keeps_second<A>(first: Seq<char>, second: Seq<char>, a: A, b: A)
    requires
        lower(first) == lower(second),
    ensures
        spec_build(seq![first, second], seq![Ok::<A, String>(a), Ok::<A, String>(b)]) == Ok::<
            Map<Seq<char>, A>,
            ZoneLoadErrorView,
        >(Map::<Seq<char>, A>::empty().insert(lower(second), b)),
        Map::<Seq<char>, A>::empty().insert(lower(second), b).dom().finite(),
        Map::<Seq<char>, A>::empty().insert(lower(second), b).dom().len() == 1,
{
    let names = seq![first, second];
    let outcomes = seq![Ok::<A, String>(a), Ok::<A, String>(b)];
    let empty = Map::<Seq<char>, A>::empty();
    let one = empty.insert(lower(first), a);
    let two = one.insert(lower(second), b);
    assert(names.drop_first() =~= seq![second]);
    assert(outcomes.drop_first() =~= seq![Ok::<A, String>(b)]);
    assert(seq![second].drop_first() =~= Seq::<Seq<char>>::empty());
    assert(build_from(Seq::<Seq<char>>::empty(), seq![Ok::<A, String>(b)].drop_first(), two)
        == Ok::<Map<Seq<char>, A>, ZoneLoadErrorView>(two));
    assert(build_from(seq![second], seq![Ok::<A, String>(b)], one) == Ok::<
        Map<Seq<char>, A>,
        ZoneLoadErrorView,
    >(two));
    assert(build_from(names, outcomes, empty) == build_from(
        seq![second],
        seq![Ok::<A, String>(b)],
        one,
    ));
    assert(two =~= empty.insert(lower(second), b));
    assert(empty.insert(lower(second), b).dom() =~= set![lower(second)]);
}

} // verus!
