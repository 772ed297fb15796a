//! Configuration options and the policy validator.
//!
//! A raw set of [`Options`] is checked once, at configuration time, and
//! either rejected with a [`ConfigError`] that names the offending knobs,
//! or turned into an immutable [`CacheConfig`] that the engine consumes.
//! Exactly one backend family may be selected; the `Result`- and
//! `Option`-shaped outcome classifications are mutually exclusive; an
//! explicit key type and a derivation expression depend on one another;
//! and hit flagging demands a return type that can carry the flag.

use vstd::prelude::*;
use vstd::string::StrSliceExecFns;
use vstd::string::StringExecFns;

verus! {

/// A backend-selection family: the groups of knobs of which exactly one
/// may be used.
#[derive(Clone, Copy, Debug, PartialEq, Eq, Structural)]
pub enum BackendFamily {
    /// The explicit `unbound` knob.
    Unbound,
    /// The `size` and `time` knobs, alone or combined.
    SizeOrTime,
    /// A user-supplied backend, through the `type` and `create` knobs.
    Custom,
}

/// The validated backend selection.
#[derive(Clone, Copy, Debug, PartialEq, Eq, Structural)]
pub enum BackendKind {
    /// An unbounded store; also the default when no knob is given.
    Unbounded,
    /// A store of at most `capacity` entries with least-recently-used
    /// eviction.
    SizeBounded { capacity: usize },
    /// A store whose entries expire `ttl` seconds after creation.
    TimeBounded { ttl: u64, refresh: bool },
    /// A store bounded both by capacity and by entry lifetime.
    SizeAndTimeBounded { capacity: usize, ttl: u64, refresh: bool },
    /// A user-supplied store; its key type and constructor live outside
    /// this crate.
    Custom,
}

impl BackendKind {
    /// The capacity bound a runtime store gets from this backend.
    pub open spec fn spec_capacity(self) -> Option<usize> {
        match self {
            BackendKind::SizeBounded { capacity } => Some(capacity),
            BackendKind::SizeAndTimeBounded { capacity, .. } => Some(capacity),
            _ => None,
        }
    }

    /// The entry lifetime a runtime store gets from this backend.
    pub open spec fn spec_ttl(self) -> Option<u64> {
        match self {
            BackendKind::TimeBounded { ttl, .. } => Some(ttl),
            BackendKind::SizeAndTimeBounded { ttl, .. } => Some(ttl),
            _ => None,
        }
    }

    /// Whether a read of a fresh entry resets its lifetime.
    pub open spec fn spec_refresh(self) -> bool {
        match self {
            BackendKind::TimeBounded { refresh, .. } => refresh,
            BackendKind::SizeAndTimeBounded { refresh, .. } => refresh,
            _ => false,
        }
    }

    /// A backend the engine itself can instantiate: one of the four
    /// built-in kinds, with a positive capacity where size-bounded.  A
    /// custom backend's store lives outside this crate, and a
    /// size-bounded store of no capacity at all cannot be built.
    pub open spec fn runtime_constructible(self) -> bool {
        &&& !(self is Custom)
        &&& match self.spec_capacity() {
            Option::Some(c) => c >= 1,
            Option::None => true,
        }
    }
}

/// How a call's arguments become a cache key.
#[derive(Clone, Copy, Debug, PartialEq, Eq, Structural)]
pub enum KeyPolicy {
    /// The default: a structural snapshot of all arguments in order.
    AllArgs,
    /// A derivation expression producing an explicitly declared key type.
    TypedDerivation,
    /// A derivation expression whose key type the custom backend supplies.
    BackendDerivation,
}

/// A configuration-time rejection, raised before any wrapped call can run.
#[derive(Clone, Copy, Debug, PartialEq, Eq, Structural)]
pub enum ConfigError {
    /// Both the success-only and the presence-only classifications were
    /// requested.
    ConflictingResultShapes,
    /// Hit flagging was requested but the declared return type carries no
    /// recognizable flag wrapper.
    UnflaggableReturn,
    /// An explicit key type was given without a derivation expression.
    KeyWithoutDerivation,
    /// A derivation expression was given without an explicit key type and
    /// without a custom backend to supply one.
    DerivationWithoutKeyOrBackend,
    /// A custom backend type was declared without its constructor.
    CustomTypeWithoutConstructor,
    /// A custom backend constructor was declared without its type.
    CustomConstructorWithoutType,
    /// Two backend families were selected at once; both are named.
    ConflictingBackends(BackendFamily, BackendFamily),
}

/// The raw configuration options, as assembled from the configuration
/// surface before validation.
pub struct Options {
    /// Explicit cache identity; the default is the uppercased function
    /// name.
    pub name: Option<Vec<u8>>,
    /// Request an unbounded backend explicitly.
    pub unbound: bool,
    /// Request a size-bounded backend of this capacity.
    pub size: Option<usize>,
    /// Request a time-bounded backend with this lifetime in seconds.
    pub time: Option<u64>,
    /// Whether a read of a fresh entry resets its lifetime.
    pub time_refresh: bool,
    /// An explicit key type was given.
    pub key: bool,
    /// A key derivation expression was given.
    pub convert: bool,
    /// Cache only the success branch of a `Result`-shaped return.
    pub result: bool,
    /// Cache only the present branch of an `Option`-shaped return.
    pub option: bool,
    /// Hold the write-capable lock from before the lookup through the
    /// store.
    pub sync_writes: bool,
    /// Mark values served from the cache.
    pub with_cached_flag: bool,
    /// A custom backend type was given.
    pub cache_type: bool,
    /// A custom backend constructor expression was given.
    pub cache_create: bool,
    /// The declared return type of the wrapped function, textually.
    pub return_type: String,
}

/// A validated, immutable configuration.
#[derive(Debug)]
pub struct CacheConfig {
    /// The cache identity: the explicit name, or the uppercased function
    /// name.
    pub identity: Vec<u8>,
    pub backend: BackendKind,
    pub key_policy: KeyPolicy,
    pub shape: crate::outcome::ResultShape,
    /// Mark values served from the cache.
    pub flag_hits: bool,
    /// Serialize the whole lookup-compute-store sequence per call.
    pub sync_writes: bool,
}

/// The pattern `p` occurs in `s` starting at position `i`.
pub open spec fn tag_at(s: Seq<char>, p: Seq<char>, i: int) -> bool {
    0 <= i && i + p.len() <= s.len() && s.subrange(i, i + p.len() as int) == p
}

/// The pattern `p` occurs somewhere in `s`.
pub open spec fn contains_tag(s: Seq<char>, p: Seq<char>) -> bool {
    exists|i: int| tag_at(s, p, i)
}

/// A return type can carry the hit marker when its text holds the flag
/// wrapper marker `Return`.
pub open spec fn spec_taggable(t: Seq<char>) -> bool {
    contains_tag(t, "Return"@)
}

/// Whether `p` occurs in `s` starting exactly at `i`.
fn match_at(s: &str, p: &str, i: usize) -> (r: bool)
    requires
        i + p@.len() <= s@.len(),
        s@.len() <= usize::MAX,
    ensures
        r == tag_at(s@, p@, i as int),
{
    let m = p.unicode_len();
    let mut j: usize = 0;
    while j < m
        invariant
            j <= m,
            m == p@.len(),
            i + m <= s@.len(),
            s@.len() <= usize::MAX,
            forall|y: int| 0 <= y < j ==> s@[i + y] == p@[y],
        decreases m - j,
    {
        if s.get_char(i + j) != p.get_char(j) {
            proof {
                if tag_at(s@, p@, i as int) {
                    assert(s@.subrange(i as int, i + p@.len() as int)[j as int] == s@[i + j]);
                }
            }
            return false;
        }
        j = j + 1;
    }
    proof {
        assert(s@.subrange(i as int, i + p@.len() as int) =~= p@);
    }
    true
}

/// Whether the pattern `p` occurs anywhere in `s`.
fn contains_pattern(s: &str, p: &str) -> (r: bool)
    ensures
        r == contains_tag(s@, p@),
{
    let n = s.unicode_len();
    let m = p.unicode_len();
    if m > n {
        proof {
            assert forall|x: int| !tag_at(s@, p@, x) by {}
        }
        return false;
    }
    if m == 0 {
        proof {
            assert(s@.subrange(0, 0) =~= p@);
            assert(tag_at(s@, p@, 0));
        }
        return true;
    }
    let mut i: usize = 0;
    while i <= n - m
        invariant
            1 <= m <= n,
            n == s@.len(),
            m == p@.len(),
            i <= n - m + 1,
            forall|x: int| 0 <= x < i ==> !tag_at(s@, p@, x),
        decreases n - m + 1 - i,
    {
        if match_at(s, p, i) {
            return true;
        }
        i = i + 1;
    }
    proof {
        assert forall|x: int| !tag_at(s@, p@, x) by {
            if 0 <= x < i {
            }
        }
    }
    false
}

/// Whether a declared return type can carry the hit marker.  The
/// configuration surface recognizes the wrapper by the marker `Return` in
/// the type's text.
pub fn return_shape_taggable(return_type: &str) -> (r: bool)
    ensures
        r == spec_taggable(return_type@),
{
    contains_pattern(return_type, "Return")
}

/// An ASCII lower-case letter mapped to its upper-case form; any other
/// byte unchanged.
pub open spec fn upper_byte(b: u8) -> u8 {
    if 97 <= b <= 122 {
        (b - 32) as u8
    } else {
        b
    }
}

/// A byte string with each ASCII lower-case letter upper-cased.
pub open spec fn upper_bytes(s: Seq<u8>) -> Seq<u8> {
    Seq::new(s.len(), |i: int| upper_byte(s[i]))
}

/// The cache identity: the explicit name when one was given, and the
/// uppercased function name otherwise.
pub fn cache_identity(name: Option<Vec<u8>>, fn_name: &Vec<u8>) -> (r: Vec<u8>)
    ensures
        match name {
            Some(n) => r@ == n@,
            None => r@ == upper_bytes(fn_name@),
        },
{
    match name {
        Some(n) => n,
        None => {
            let mut out: Vec<u8> = Vec::new();
            let mut i: usize = 0;
            while i < fn_name.len()
                invariant
                    i <= fn_name.len(),
                    out@.len() == i,
                    forall|j: int| 0 <= j < i ==> out@[j] == upper_byte(fn_name@[j]),
                decreases fn_name.len() - i,
            {
                let b = fn_name[i];
                if 97 <= b && b <= 122 {
                    out.push(b - 32);
                } else {
                    out.push(b);
                }
                i = i + 1;
            }
            proof {
                assert(out@ =~= upper_bytes(fn_name@));
            }
            out
        },
    }
}

/// The `unbound` family is selected.
pub open spec fn family_unbound(o: Options) -> bool {
    o.unbound
}

/// The `size`/`time` family is selected.
pub open spec fn family_size_time(o: Options) -> bool {
    o.size is Some || o.time is Some
}

/// The custom family is selected, wholly or in part.
pub open spec fn family_custom(o: Options) -> bool {
    o.cache_type || o.cache_create
}

/// The backend-selection error for the given options, if any: a conflict
/// between two families, or a custom backend missing one of its two
/// parts.
pub open spec fn spec_backend_error(o: Options) -> Option<ConfigError> {
    if family_unbound(o) && family_size_time(o) {
        Some(
            ConfigError::ConflictingBackends(BackendFamily::Unbound, BackendFamily::SizeOrTime),
        )
    } else if family_unbound(o) && family_custom(o) {
        Some(ConfigError::ConflictingBackends(BackendFamily::Unbound, BackendFamily::Custom))
    } else if family_size_time(o) && family_custom(o) {
        Some(ConfigError::ConflictingBackends(BackendFamily::SizeOrTime, BackendFamily::Custom))
    } else if o.cache_type && !o.cache_create {
        Some(ConfigError::CustomTypeWithoutConstructor)
    } else if o.cache_create && !o.cache_type {
        Some(ConfigError::CustomConstructorWithoutType)
    } else {
        None
    }
}

/// The first validation error for the given options, if any, in the order
/// the checks are made: hit-flag taggability, outcome-shape exclusivity,
/// key and derivation dependence, backend selection.
pub open spec fn spec_error(o: Options) -> Option<ConfigError> {
    if o.with_cached_flag && !spec_taggable(o.return_type@) {
        Some(ConfigError::UnflaggableReturn)
    } else if o.result && o.option {
        Some(ConfigError::ConflictingResultShapes)
    } else if o.key && !o.convert {
        Some(ConfigError::KeyWithoutDerivation)
    } else if o.convert && !o.key && !o.cache_type {
        Some(ConfigError::DerivationWithoutKeyOrBackend)
    } else {
        spec_backend_error(o)
    }
}

/// The backend selected by a valid set of options.
pub open spec fn spec_backend(o: Options) -> BackendKind {
    if o.unbound {
        BackendKind::Unbounded
    } else if o.size is Some && o.time is Some {
        BackendKind::SizeAndTimeBounded {
            capacity: o.size->0,
            ttl: o.time->0,
            refresh: o.time_refresh,
        }
    } else if o.size is Some {
        BackendKind::SizeBounded { capacity: o.size->0 }
    } else if o.time is Some {
        BackendKind::TimeBounded { ttl: o.time->0, refresh: o.time_refresh }
    } else if o.cache_type {
        BackendKind::Custom
    } else {
        BackendKind::Unbounded
    }
}

/// The key policy selected by a valid set of options.
pub open spec fn spec_key_policy(o: Options) -> KeyPolicy {
    if o.key && o.convert {
        KeyPolicy::TypedDerivation
    } else if o.convert {
        KeyPolicy::BackendDerivation
    } else {
        KeyPolicy::AllArgs
    }
}

/// The outcome shape selected by a valid set of options.
pub open spec fn spec_shape(o: Options) -> crate::outcome::ResultShape {
    if o.result {
        crate::outcome::ResultShape::ResultWrapped
    } else if o.option {
        crate::outcome::ResultShape::OptionWrapped
    } else {
        crate::outcome::ResultShape::Plain
    }
}

/// The policy validator: rejects an invalid combination of options with
/// the first error in checking order, and otherwise fixes the
/// configuration for the life of the program.
pub fn validate(o: Options, fn_name: &Vec<u8>) -> (r: Result<CacheConfig, ConfigError>)
    ensures
        match r {
            Result::Err(e) => spec_error(o) == Some(e),
            Result::Ok(c) => {
                &&& spec_error(o) is None
                &&& c.backend == spec_backend(o)
                &&& c.key_policy == spec_key_policy(o)
                &&& c.shape == spec_shape(o)
                &&& c.flag_hits == o.with_cached_flag
                &&& c.sync_writes == o.sync_writes
                &&& match o.name {
                    Some(n) => c.identity@ == n@,
                    None => c.identity@ == upper_bytes(fn_name@),
                }
            },
        },
{
    if o.with_cached_flag && !return_shape_taggable(o.return_type.as_str()) {
        return Err(ConfigError::UnflaggableReturn);
    }
    if o.result && o.option {
        return Err(ConfigError::ConflictingResultShapes);
    }
    if o.key && !o.convert {
        return Err(ConfigError::KeyWithoutDerivation);
    }
    if o.convert && !o.key && !o.cache_type {
        return Err(ConfigError::DerivationWithoutKeyOrBackend);
    }
    let fam_unbound = o.unbound;
    let fam_size_time = o.size.is_some() || o.time.is_some();
    let fam_custom = o.cache_type || o.cache_create;
    if fam_unbound && fam_size_time {
        return Err(
            ConfigError::ConflictingBackends(BackendFamily::Unbound, BackendFamily::SizeOrTime),
        );
    }
    if fam_unbound && fam_custom {
        return Err(
            ConfigError::ConflictingBackends(BackendFamily::Unbound, BackendFamily::Custom),
        );
    }
    if fam_size_time && fam_custom {
        return Err(
            ConfigError::ConflictingBackends(BackendFamily::SizeOrTime, BackendFamily::Custom),
        );
    }
    if o.cache_type && !o.cache_create {
        return Err(ConfigError::CustomTypeWithoutConstructor);
    }
    if o.cache_create && !o.cache_type {
        return Err(ConfigError::CustomConstructorWithoutType);
    }
    let backend = if o.unbound {
        BackendKind::Unbounded
    } else {
        match (o.size, o.time) {
            (Some(capacity), Some(ttl)) => BackendKind::SizeAndTimeBounded {
                capacity,
                ttl,
                refresh: o.time_refresh,
            },
            (Some(capacity), None) => BackendKind::SizeBounded { capacity },
            (None, Some(ttl)) => BackendKind::TimeBounded { ttl, refresh: o.time_refresh },
            (None, None) => if o.cache_type {
                BackendKind::Custom
            } else {
                BackendKind::Unbounded
            },
        }
    };
    let key_policy = if o.key && o.convert {
        KeyPolicy::TypedDerivation
    } else if o.convert {
        KeyPolicy::BackendDerivation
    } else {
        KeyPolicy::AllArgs
    };
    let shape = if o.result {
        crate::outcome::ResultShape::ResultWrapped
    } else if o.option {
        crate::outcome::ResultShape::OptionWrapped
    } else {
        crate::outcome::ResultShape::Plain
    };
    let identity = cache_identity(o.name, fn_name);
    Ok(
        CacheConfig {
            identity,
            backend,
            key_policy,
            shape,
            flag_hits: o.with_cached_flag,
            sync_writes: o.sync_writes,
        },
    )
}

/// The raw options of the single-slot surface, which caches a whole
/// function result at most once: no backend family and no key derivation
/// to choose, only lifetime, outcome classification, write serialization
/// and hit flagging.
pub struct OnceOptions {
    /// Explicit cache identity; the default is the uppercased function
    /// name.
    pub name: Option<Vec<u8>>,
    /// Expire the stored value this many seconds after creation.
    pub time: Option<u64>,
    /// Hold the write-capable acquisition from before the read through
    /// the store.
    pub sync_writes: bool,
    /// Cache only the success branch of a `Result`-shaped return.
    pub result: bool,
    /// Cache only the present branch of an `Option`-shaped return.
    pub option: bool,
    /// Mark values served from the cache.
    pub with_cached_flag: bool,
    /// The declared return type of the wrapped function, textually.
    pub return_type: String,
}

/// A validated, immutable single-slot configuration.
#[derive(Debug)]
pub struct OnceConfig {
    pub identity: Vec<u8>,
    /// Lifetime of the stored value in seconds, or `None` for a value
    /// that never expires.
    pub ttl: Option<u64>,
    pub shape: crate::outcome::ResultShape,
    /// Mark values served from the cache.
    pub flag_hits: bool,
    /// Serialize the whole read-compute-store sequence per call.
    pub sync_writes: bool,
}

/// The first validation error for single-slot options, if any: only the
/// hit-flag and outcome-shape rules apply.
pub open spec fn spec_error_once(o: OnceOptions) -> Option<ConfigError> {
    if o.with_cached_flag && !spec_taggable(o.return_type@) {
        Some(ConfigError::UnflaggableReturn)
    } else if o.result && o.option {
        Some(ConfigError::ConflictingResultShapes)
    } else {
        None
    }
}

/// The outcome shape selected by a valid set of single-slot options.
pub open spec fn spec_shape_once(o: OnceOptions) -> crate::outcome::ResultShape {
    if o.result {
        crate::outcome::ResultShape::ResultWrapped
    } else if o.option {
        crate::outcome::ResultShape::OptionWrapped
    } else {
        crate::outcome::ResultShape::Plain
    }
}

/// The policy validator of the single-slot surface.
pub fn validate_once(o: OnceOptions, fn_name: &Vec<u8>) -> (r: Result<OnceConfig, ConfigError>)
    ensures
        match r {
            Result::Err(e) => spec_error_once(o) == Some(e),
            Result::Ok(c) => {
                &&& spec_error_once(o) is None
                &&& c.ttl == o.time
                &&& c.shape == spec_shape_once(o)
                &&& c.flag_hits == o.with_cached_flag
                &&& c.sync_writes == o.sync_writes
                &&& match o.name {
                    Some(n) => c.identity@ == n@,
                    None => c.identity@ == upper_bytes(fn_name@),
                }
            },
        },
{
    if o.with_cached_flag && !return_shape_taggable(o.return_type.as_str()) {
        return Err(ConfigError::UnflaggableReturn);
    }
    if o.result && o.option {
        return Err(ConfigError::ConflictingResultShapes);
    }
    let shape = if o.result {
        crate::outcome::ResultShape::ResultWrapped
    } else if o.option {
        crate::outcome::ResultShape::OptionWrapped
    } else {
        crate::outcome::ResultShape::Plain
    };
    let identity = cache_identity(o.name, fn_name);
    Ok(
        OnceConfig {
            identity,
            ttl: o.time,
            shape,
            flag_hits: o.with_cached_flag,
            sync_writes: o.sync_writes,
        },
    )
}

/// The name of a backend family as it appears on the configuration
/// surface.
pub fn family_name(f: &BackendFamily) -> (r: &'static str)
    ensures
        r@ == spec_family_name(*f),
{
    match f {
        BackendFamily::Unbound => "unbound",
        BackendFamily::SizeOrTime => "size and/or time",
        BackendFamily::Custom => "type and create",
    }
}

/// The name of a backend family, as a character sequence.
pub open spec fn spec_family_name(f: BackendFamily) -> Seq<char> {
    match f {
        BackendFamily::Unbound => "unbound"@,
        BackendFamily::SizeOrTime => "size and/or time"@,
        BackendFamily::Custom => "type and create"@,
    }
}

/// The description of a configuration error, naming the offending knobs
/// and what they require.
pub open spec fn spec_describe(e: ConfigError) -> Seq<char> {
    match e {
        ConfigError::ConflictingResultShapes => {
            "the result and option attributes are mutually exclusive"@
        },
        ConfigError::UnflaggableReturn => {
            "with_cached_flag requires a return type able to carry the flag: a flagged value, a result of one, or an option of one"@
        },
        ConfigError::KeyWithoutDerivation => "key requires convert to be set"@,
        ConfigError::DerivationWithoutKeyOrBackend => "convert requires key or type to be set"@,
        ConfigError::CustomTypeWithoutConstructor => "type requires create to also be set"@,
        ConfigError::CustomConstructorWithoutType => "create requires type to also be set"@,
        ConfigError::ConflictingBackends(a, b) => {
            "cache backend families are mutually exclusive: "@ + spec_family_name(a)
                + " conflicts with "@ + spec_family_name(b)
        },
    }
}

/// The report for a rejected hit-flag request: it names the three
/// supported return-type shapes and the offending declared type.
pub fn unflaggable_description(found: &str) -> (r: String)
    ensures
        r@
            == "with_cached_flag requires a return type able to carry the flag: a flagged value, a result of one, or an option of one; found "@
            + found@,
{
    let msg = String::from_str(
        "with_cached_flag requires a return type able to carry the flag: a flagged value, a result of one, or an option of one; found ",
    );
    msg.concat(found)
}

impl ConfigError {
    /// The error's description, naming the offending knobs and what they
    /// require.
    pub fn describe(&self) -> (r: String)
        ensures
            r@ == spec_describe(*self),
    {
        match self {
            ConfigError::ConflictingResultShapes => {
                String::from_str("the result and option attributes are mutually exclusive")
            },
            ConfigError::UnflaggableReturn => {
                String::from_str(
                    "with_cached_flag requires a return type able to carry the flag: a flagged value, a result of one, or an option of one",
                )
            },
            ConfigError::KeyWithoutDerivation => String::from_str("key requires convert to be set"),
            ConfigError::DerivationWithoutKeyOrBackend => {
                String::from_str("convert requires key or type to be set")
            },
            ConfigError::CustomTypeWithoutConstructor => {
                String::from_str("type requires create to also be set")
            },
            ConfigError::CustomConstructorWithoutType => {
                String::from_str("create requires type to also be set")
            },
            ConfigError::ConflictingBackends(a, b) => {
                let msg = String::from_str("cache backend families are mutually exclusive: ");
                let msg = msg.concat(family_name(a));
                let msg = msg.concat(" conflicts with ");
                msg.concat(family_name(b))
            },
        }
    }
}

} // verus!
