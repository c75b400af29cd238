use vstd::prelude::*;

use crate::error::AnyError;
use crate::options::AnyUrl;

verus! {

/// Optional migration capability block of a driver: the three asynchronous
/// entry points a backend that supports database administration offers, each
/// keyed by a raw connection string. This core never invokes them; it only
/// carries them, so their concrete types are the embedder's choice.
#[derive(Debug)]
pub struct AnyMigrateDatabase<CF, EF, DF> {
    pub create_database: CF,
    pub database_exists: EF,
    pub drop_database: DF,
}

/// An immutable descriptor for one backend driver: the URL schemes it
/// claims, its connect entry point, and an optional migration capability
/// block. The connect and migration entry points are opaque payloads to this
/// core (the embedding code invokes them); selection logic reads only the
/// scheme list.
#[derive(Debug)]
pub struct AnyDriver<C, M> {
    pub url_schemes: Vec<String>,
    pub connect: C,
    pub migrate_database: Option<M>,
}

/// Whether driver `d` claims `scheme`: some entry of its scheme list equals
/// it, character for character (comparison is case-sensitive).
pub open spec fn driver_claims<C, M>(d: AnyDriver<C, M>, scheme: Seq<char>) -> bool {
    exists|i: int| 0 <= i < d.url_schemes@.len() && (#[trigger] d.url_schemes@[i])@ == scheme
}

/// Whether some installed driver claims `scheme`.
pub open spec fn has_driver_for<C, M>(drivers: Seq<AnyDriver<C, M>>, scheme: Seq<char>) -> bool {
    exists|i: int| 0 <= i < drivers.len() && #[trigger] driver_claims(drivers[i], scheme)
}

/// The index selection answers with: the first driver, in registration
/// order, that claims `scheme`. Meaningful only when `has_driver_for` holds.
pub open spec fn chosen_index<C, M>(drivers: Seq<AnyDriver<C, M>>, scheme: Seq<char>) -> int
    decreases drivers.len(),
{
    if drivers.len() == 0 {
        0
    } else if driver_claims(drivers[0], scheme) {
        0
    } else {
        1 + chosen_index(drivers.drop_first(), scheme)
    }
}

/// When a match exists, the chosen index is in range, claims the scheme, and
/// no earlier driver does.
pub proof fn lemma_chosen_index_properties<C, M>(drivers: Seq<AnyDriver<C, M>>, scheme: Seq<char>)
    requires
        has_driver_for(drivers, scheme),
    ensures
        0 <= chosen_index(drivers, scheme) < drivers.len(),
        driver_claims(drivers[chosen_index(drivers, scheme)], scheme),
        forall|k: int| 0 <= k < chosen_index(drivers, scheme)
            ==> !#[trigger] driver_claims(drivers[k], scheme),
    decreases drivers.len(),
{
    let i = choose|i: int| 0 <= i < drivers.len() && #[trigger] driver_claims(drivers[i], scheme);
    if !driver_claims(drivers[0], scheme) {
        let rest = drivers.drop_first();
        assert(driver_claims(rest[i - 1], scheme));
        lemma_chosen_index_properties(rest, scheme);
        let c = chosen_index(rest, scheme);
        assert(drivers[1 + c] == rest[c]);
        assert forall|k: int| 0 <= k < 1 + c implies !#[trigger] driver_claims(
            drivers[k],
            scheme,
        ) by {
            if k > 0 {
                assert(drivers[k] == rest[k - 1]);
            }
        }
    }
}

/// A driver that claims the scheme while no earlier one does is exactly the
/// chosen one.
pub proof fn lemma_chosen_is_first<C, M>(
    drivers: Seq<AnyDriver<C, M>>,
    scheme: Seq<char>,
    i: int,
)
    requires
        0 <= i < drivers.len(),
        driver_claims(drivers[i], scheme),
        forall|k: int| 0 <= k < i ==> !#[trigger] driver_claims(drivers[k], scheme),
    ensures
        has_driver_for(drivers, scheme),
        chosen_index(drivers, scheme) == i,
    decreases i,
{
    if i > 0 {
        let rest = drivers.drop_first();
        assert(rest[i - 1] == drivers[i]);
        assert forall|k: int| 0 <= k < i - 1 implies !#[trigger] driver_claims(
            rest[k],
            scheme,
        ) by {
            assert(rest[k] == drivers[k + 1]);
        }
        lemma_chosen_is_first(rest, scheme, i - 1);
    }
}

/// Whether two drivers' scheme sets are disjoint: no scheme is claimed by
/// both.
pub open spec fn disjoint_schemes<C, M>(a: AnyDriver<C, M>, b: AnyDriver<C, M>) -> bool {
    forall|s: Seq<char>|
        #![trigger driver_claims(a, s), driver_claims(b, s)]
        !(driver_claims(a, s) && driver_claims(b, s))
}

/// Whether the scheme sets of the drivers are pairwise disjoint.
pub open spec fn pairwise_disjoint<C, M>(drivers: Seq<AnyDriver<C, M>>) -> bool {
    forall|i: int, j: int|
        0 <= i < drivers.len() && 0 <= j < drivers.len() && i != j
            ==> disjoint_schemes(#[trigger] drivers[i], #[trigger] drivers[j])
}

/// When the installed drivers have pairwise disjoint scheme sets, selection
/// is unique: any driver that claims the scheme is the chosen one. Together
/// with `lemma_chosen_index_properties`, this says `choose_driver` answers
/// with the one driver whose scheme set contains the URL's scheme.
pub proof fn lemma_choose_unique<C, M>(drivers: Seq<AnyDriver<C, M>>, scheme: Seq<char>, i: int)
    requires
        pairwise_disjoint(drivers),
        0 <= i < drivers.len(),
        driver_claims(drivers[i], scheme),
    ensures
        has_driver_for(drivers, scheme),
        chosen_index(drivers, scheme) == i,
{
    assert forall|k: int| 0 <= k < i implies !#[trigger] driver_claims(drivers[k], scheme) by {
        assert(disjoint_schemes(drivers[k], drivers[i]));
    }
    lemma_chosen_is_first(drivers, scheme, i);
}

/// Registration order is the tie-break: whenever some driver at index `j`
/// claims the scheme, the chosen driver stands at or before `j`, claims the
/// scheme itself, and is preceded by no claimant. The chosen index is a
/// function of the driver list and the scheme, so repeated selections agree.
pub proof fn lemma_choose_first_registered<C, M>(
    drivers: Seq<AnyDriver<C, M>>,
    scheme: Seq<char>,
    j: int,
)
    requires
        0 <= j < drivers.len(),
        driver_claims(drivers[j], scheme),
    ensures
        has_driver_for(drivers, scheme),
        0 <= chosen_index(drivers, scheme) <= j,
        driver_claims(drivers[chosen_index(drivers, scheme)], scheme),
        forall|k: int| 0 <= k < chosen_index(drivers, scheme)
            ==> !#[trigger] driver_claims(drivers[k], scheme),
{
    lemma_chosen_index_properties(drivers, scheme);
    let c = chosen_index(drivers, scheme);
    if c > j {
        assert(!driver_claims(drivers[j], scheme));
    }
}

impl<C, M> AnyDriver<C, M> {
    /// Describe a backend without migration support. The scheme list is the
    /// non-empty set of URL schemes the backend serves; `connect` is its
    /// connect entry point, carried opaquely.
    pub fn without_migrate(url_schemes: Vec<String>, connect: C) -> (r: Self)
        requires
            url_schemes@.len() > 0,
        ensures
            r.url_schemes == url_schemes,
            r.connect == connect,
            r.migrate_database is None,
    {
        AnyDriver { url_schemes, connect, migrate_database: None }
    }

    /// Describe a backend together with its migration capability block.
    pub fn with_migrate(url_schemes: Vec<String>, connect: C, migrate: M) -> (r: Self)
        requires
            url_schemes@.len() > 0,
        ensures
            r.url_schemes == url_schemes,
            r.connect == connect,
            r.migrate_database == Some(migrate),
    {
        AnyDriver { url_schemes, connect, migrate_database: Some(migrate) }
    }
}

/// The process-wide table of available drivers: a slot set exactly once,
/// before any connection attempt, and read-only afterwards. Modelled as a
/// value the embedding code owns (and, in its outer layer, typically wraps
/// in a process-global write-once cell), which also lets tests run several
/// independent registries side by side.
pub struct DriverRegistry<C, M> {
    drivers: Option<Vec<AnyDriver<C, M>>>,
}

impl<C, M> DriverRegistry<C, M> {
    /// Whether `install_drivers` has run on this registry.
    pub closed spec fn is_installed(&self) -> bool {
        self.drivers is Some
    }

    /// The installed drivers, in registration order.
    pub closed spec fn drivers_seq(&self) -> Seq<AnyDriver<C, M>> {
        self.drivers->0@
    }

    /// Whether a driver list has been installed.
    pub fn installed(&self) -> (r: bool)
        ensures
            r == self.is_installed(),
    {
        self.drivers.is_some()
    }

    /// A registry with nothing installed yet.
    pub fn new() -> (r: Self)
        ensures
            !r.is_installed(),
    {
        DriverRegistry { drivers: None }
    }

    /// The installed driver list. Reaching a connection attempt before
    /// installation is a configuration error of the embedding process, not a
    /// runtime condition, so an installed registry is a precondition here.
    pub fn get(&self) -> (r: &Vec<AnyDriver<C, M>>)
        requires
            self.is_installed(),
        ensures
            r@ == self.drivers_seq(),
    {
        match &self.drivers {
            Some(v) => v,
            None => vstd::pervasive::unreached(),
        }
    }
}

/// Set the list of drivers the registry holds, exactly once.
///
/// The first call installs the list and returns `Ok`. Every later call —
/// with any list, the empty one included — fails, hands the rejected list
/// back, and leaves the registry exactly as the first call left it.
pub fn install_drivers<C, M>(
    registry: &mut DriverRegistry<C, M>,
    drivers: Vec<AnyDriver<C, M>>,
) -> (r: Result<(), Vec<AnyDriver<C, M>>>)
    ensures
        !old(registry).is_installed() ==> r is Ok && final(registry).is_installed()
            && final(registry).drivers_seq() == drivers@,
        old(registry).is_installed() ==> *final(registry) == *old(registry) && (match r {
            Ok(_) => false,
            Err(rejected) => rejected == drivers,
        }),
{
    if registry.drivers.is_some() {
        return Err(drivers);
    }
    registry.drivers = Some(drivers);
    Ok(())
}

/// Whether `scheme` occurs in `schemes`, compared case-sensitively.
fn schemes_contain(schemes: &Vec<String>, scheme: &String) -> (r: bool)
    ensures
        r == (exists|i: int| 0 <= i < schemes@.len() && (#[trigger] schemes@[i])@ == scheme@),
{
    let n = schemes.len();
    let mut idx: usize = 0;
    while idx < n
        invariant
            n == schemes@.len(),
            idx <= n,
            forall|k: int| 0 <= k < idx ==> (#[trigger] schemes@[k])@ != scheme@,
        decreases n - idx,
    {
        if schemes[idx] == *scheme {
            return true;
        }
        idx += 1;
    }
    false
}

/// Select the driver for `url`: the first installed driver, in registration
/// order, whose scheme list contains `url`'s scheme. When none does, the
/// result is the configuration error naming that exact scheme — a normal,
/// reportable condition, unlike an uninstalled registry, which is a
/// precondition violation of the embedding process.
pub fn choose_driver<'a, C, M>(registry: &'a DriverRegistry<C, M>, url: &AnyUrl) -> (r: Result<
    &'a AnyDriver<C, M>,
    AnyError,
>)
    requires
        registry.is_installed(),
    ensures
        match r {
            Ok(d) => has_driver_for(registry.drivers_seq(), url@.scheme) && *d
                == registry.drivers_seq()[chosen_index(registry.drivers_seq(), url@.scheme)],
            Err(e) => !has_driver_for(registry.drivers_seq(), url@.scheme) && e.scheme()
                == url@.scheme,
        },
{
    let drivers = registry.get();
    let scheme = url.scheme_string();
    let n = drivers.len();
    let mut idx: usize = 0;
    while idx < n
        invariant
            registry.is_installed(),
            drivers@ == registry.drivers_seq(),
            scheme@ == url@.scheme,
            n == drivers@.len(),
            idx <= n,
            forall|k: int| 0 <= k < idx ==> !#[trigger] driver_claims(drivers@[k], url@.scheme),
        decreases n - idx,
    {
        if schemes_contain(&drivers[idx].url_schemes, &scheme) {
            proof {
                assert(driver_claims(drivers@[idx as int], url@.scheme));
                lemma_chosen_is_first(drivers@, url@.scheme, idx as int);
            }
            return Ok(&drivers[idx]);
        }
        idx += 1;
    }
    Err(AnyError::Configuration(scheme))
}

} // verus!
