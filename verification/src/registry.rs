//! A deterministic, versioned registry of workflow definitions: each name has
//! versions, exactly one of which is the default that unpinned launches use.
use vstd::prelude::*;

use crate::json::JsonValue;
use crate::text::chars_lt;
use crate::text::chars_of;
use crate::text::is_blank;
use crate::text::lemma_str_lt_total;
use crate::text::lemma_str_lt_trans;
use crate::text::owned;
use crate::text::spec_blank;
use crate::text::spec_str_lt;
use crate::text::str_eq;
use vstd::string::StrSliceExecFns;

verus! {

/// A workflow's semantic version.
#[derive(Clone, Copy, Debug, PartialEq, Eq, Structural)]
pub struct WorkflowVersion {
    pub major: u64,
    pub minor: u64,
    pub patch: u64,
}

/// How far a workflow's interface may still change.
#[derive(Clone, Copy, Debug, PartialEq, Eq, Structural)]
pub enum WorkflowStability {
    Experimental,
    Stable,
    Deprecated,
}

/// What a workflow declares about itself.
#[derive(Clone, Debug, PartialEq, Eq)]
pub struct WorkflowMetadata {
    pub name: String,
    pub version: WorkflowVersion,
    pub description: String,
    pub is_default: bool,
    pub stability: WorkflowStability,
}

/// What registration captures from a workflow's types: its state schema
/// version, its long help, and its argument and output JSON schemas.
#[derive(Debug, PartialEq)]
pub struct CapturedInterface {
    pub state_schema_version: u32,
    pub argv_help: String,
    pub argument_schema: JsonValue,
    pub output_schema: JsonValue,
}

/// Registry construction or lookup failure.
#[derive(Clone, Debug, PartialEq, Eq)]
pub enum RegistryError {
    DuplicateVersion { name: String, version: WorkflowVersion },
    DuplicateDefault { name: String },
    MissingDefault { name: String },
    InvalidDescription { name: String, version: WorkflowVersion },
    InvalidSchema { name: String, version: WorkflowVersion, target: &'static str, message: String },
    InvalidStateVersion { name: String, version: WorkflowVersion },
    UnknownWorkflow { name: String },
    UnknownVersion { name: String, version: WorkflowVersion },
}

/// Discovery metadata captured at registration time.
#[derive(Debug, PartialEq)]
pub struct WorkflowDefinitionMetadata {
    name: String,
    version: WorkflowVersion,
    description: String,
    is_default: bool,
    stability: WorkflowStability,
    state_schema_version: u32,
    argv_help: String,
    argument_schema: JsonValue,
    output_schema: JsonValue,
}

impl WorkflowDefinitionMetadata {
    pub closed spec fn spec_name(&self) -> Seq<char> {
        self.name@
    }

    pub closed spec fn spec_version(&self) -> WorkflowVersion {
        self.version
    }

    pub closed spec fn spec_is_default(&self) -> bool {
        self.is_default
    }

    pub closed spec fn spec_description(&self) -> Seq<char> {
        self.description@
    }

    pub closed spec fn spec_state_schema_version(&self) -> u32 {
        self.state_schema_version
    }

    pub fn name(&self) -> (r: &str)
        ensures
            r@ == self.spec_name(),
    {
        self.name.as_str()
    }

    pub fn version(&self) -> (r: WorkflowVersion)
        ensures
            r == self.spec_version(),
    {
        self.version
    }

    pub fn description(&self) -> (r: &str)
        ensures
            r@ == self.spec_description(),
    {
        self.description.as_str()
    }

    pub fn is_default(&self) -> (r: bool)
        ensures
            r == self.spec_is_default(),
    {
        self.is_default
    }

    pub fn stability(&self) -> WorkflowStability {
        self.stability
    }

    pub fn state_schema_version(&self) -> (r: u32)
        ensures
            r == self.spec_state_schema_version(),
    {
        self.state_schema_version
    }

    pub fn argv_help(&self) -> &str {
        self.argv_help.as_str()
    }

    pub fn argument_schema(&self) -> &JsonValue {
        &self.argument_schema
    }

    pub fn output_schema(&self) -> &JsonValue {
        &self.output_schema
    }
}

// ---------------------------------------------------------------- ordering

pub open spec fn spec_version_lt(a: WorkflowVersion, b: WorkflowVersion) -> bool {
    a.major < b.major || (a.major == b.major && (a.minor < b.minor || (a.minor == b.minor && a.patch
        < b.patch)))
}

/// Name order, then version order: the registry's iteration order.
pub open spec fn spec_key_lt(an: Seq<char>, av: WorkflowVersion, bn: Seq<char>, bv: WorkflowVersion) -> bool {
    spec_str_lt(an, bn) || (an == bn && spec_version_lt(av, bv))
}

pub open spec fn spec_entry_lt(a: WorkflowDefinitionMetadata, b: WorkflowDefinitionMetadata) -> bool {
    spec_key_lt(a.spec_name(), a.spec_version(), b.spec_name(), b.spec_version())
}

/// Strictly increasing keys.
pub open spec fn spec_sorted(e: Seq<WorkflowDefinitionMetadata>) -> bool {
    forall|i: int, j: int| 0 <= i < j < e.len() ==> spec_entry_lt(#[trigger] e[i], #[trigger] e[j])
}

/// The position of the definition with this exact key.
pub open spec fn spec_has_key(e: Seq<WorkflowDefinitionMetadata>, name: Seq<char>, v: WorkflowVersion) -> bool {
    exists|i: int| 0 <= i < e.len() && (#[trigger] e[i]).spec_name() == name && e[i].spec_version() == v
}

/// Some definition of `name` is the default.
pub open spec fn spec_has_default(e: Seq<WorkflowDefinitionMetadata>, name: Seq<char>) -> bool {
    exists|i: int| 0 <= i < e.len() && (#[trigger] e[i]).spec_name() == name && e[i].spec_is_default()
}

/// At most one default per name.
pub open spec fn spec_unique_defaults(e: Seq<WorkflowDefinitionMetadata>) -> bool {
    forall|i: int, j: int|
        0 <= i < e.len() && 0 <= j < e.len() && (#[trigger] e[i]).spec_name() == (#[trigger] e[j]).spec_name()
            && e[i].spec_is_default() && e[j].spec_is_default() ==> i == j
}

/// Every registered name has a default.
pub open spec fn spec_all_defaulted(e: Seq<WorkflowDefinitionMetadata>) -> bool {
    forall|i: int| 0 <= i < e.len() ==> spec_has_default(e, (#[trigger] e[i]).spec_name())
}

proof fn lemma_key_lt_facts(an: Seq<char>, av: WorkflowVersion, bn: Seq<char>, bv: WorkflowVersion)
    ensures
        !(spec_key_lt(an, av, bn, bv) && spec_key_lt(bn, bv, an, av)),
        !(an == bn && av == bv) ==> spec_key_lt(an, av, bn, bv) || spec_key_lt(bn, bv, an, av),
        !spec_key_lt(an, av, an, av),
{
    lemma_str_lt_total(an, bn);
    lemma_str_lt_total(bn, an);
}

proof fn lemma_key_lt_trans(
    an: Seq<char>,
    av: WorkflowVersion,
    bn: Seq<char>,
    bv: WorkflowVersion,
    cn: Seq<char>,
    cv: WorkflowVersion,
)
    requires
        spec_key_lt(an, av, bn, bv),
        spec_key_lt(bn, bv, cn, cv),
    ensures
        spec_key_lt(an, av, cn, cv),
{
    if spec_str_lt(an, bn) && spec_str_lt(bn, cn) {
        lemma_str_lt_trans(an, bn, cn);
    }
}

/// What every built registry satisfies: keys strictly increase, each name has
/// exactly one default.
pub open spec fn spec_registry_wf(e: Seq<WorkflowDefinitionMetadata>) -> bool {
    spec_sorted(e) && spec_unique_defaults(e) && spec_all_defaulted(e)
}

/// In a built registry no two definitions share a name and version, and
/// resolving a registered name without a version finds its one default.
pub proof fn law_registry_keys_and_defaults(e: Seq<WorkflowDefinitionMetadata>, i: int)
    requires
        spec_registry_wf(e),
        0 <= i < e.len(),
    ensures
        forall|j: int|
            0 <= j < e.len() && (#[trigger] e[j]).spec_name() == e[i].spec_name() && e[j].spec_version()
                == e[i].spec_version() ==> j == i,
        spec_resolve_key(e, e[i].spec_name(), None) matches Some(v) && exists|j: int|
            0 <= j < e.len() && (#[trigger] e[j]).spec_name() == e[i].spec_name() && e[j].spec_version() == v
                && e[j].spec_is_default(),
        forall|j: int|
            0 <= j < e.len() && (#[trigger] e[j]).spec_name() == e[i].spec_name() && e[j].spec_is_default()
                ==> spec_resolve_key(e, e[i].spec_name(), None) == Some(e[j].spec_version()),
{
    lemma_key_lt_facts(e[i].spec_name(), e[i].spec_version(), e[i].spec_name(), e[i].spec_version());
    assert forall|j: int|
        0 <= j < e.len() && (#[trigger] e[j]).spec_name() == e[i].spec_name() && e[j].spec_version()
            == e[i].spec_version() implies j == i by {
        if j < i {
            assert(spec_entry_lt(e[j], e[i]));
        } else if j > i {
            assert(spec_entry_lt(e[i], e[j]));
        }
    }
    assert(spec_has_default(e, e[i].spec_name()));
    let name = e[i].spec_name();
    let d = choose|k: int| 0 <= k < e.len() && (#[trigger] e[k]).spec_name() == name && e[k].spec_is_default();
    assert(0 <= d < e.len() && e[d].spec_name() == name && e[d].spec_is_default());
    assert forall|j: int|
        0 <= j < e.len() && (#[trigger] e[j]).spec_name() == name && e[j].spec_is_default() implies spec_resolve_key(
        e,
        name,
        None,
    ) == Some(e[j].spec_version()) by {
        assert(e[d].spec_name() == e[j].spec_name());
    }
}

fn version_lt(a: WorkflowVersion, b: WorkflowVersion) -> (r: bool)
    ensures
        r == spec_version_lt(a, b),
{
    a.major < b.major || (a.major == b.major && (a.minor < b.minor || (a.minor == b.minor && a.patch
        < b.patch)))
}

fn key_lt(an: &str, av: WorkflowVersion, bn: &str, bv: WorkflowVersion) -> (r: bool)
    ensures
        r == spec_key_lt(an@, av, bn@, bv),
{
    chars_lt(&chars_of(an), &chars_of(bn)) || (str_eq(an, bn) && version_lt(av, bv))
}

// ---------------------------------------------------------------- capture

/// Why registration refuses a workflow's declared interface, if it does.
pub open spec fn spec_capture_fault(meta: WorkflowMetadata, captured: CapturedInterface) -> Option<int> {
    if spec_blank(meta.description@) || vstd::utf8::encode_utf8(meta.description@).len() > 1024 {
        Some(0)
    } else if captured.state_schema_version == 0 {
        Some(1)
    } else if spec_schema_error(captured.argument_schema) is Some {
        Some(2)
    } else if spec_schema_error(captured.output_schema) is Some {
        Some(3)
    } else {
        None
    }
}

/// Checks the declared interface and captures it.
pub fn capture_metadata(meta: WorkflowMetadata, captured: CapturedInterface) -> (r: Result<
    WorkflowDefinitionMetadata,
    RegistryError,
>)
    ensures
        spec_capture_fault(meta, captured) == Some(0int) ==> (r matches Err(
            RegistryError::InvalidDescription { name, version },
        ) && name@ == meta.name@ && version == meta.version),
        spec_capture_fault(meta, captured) == Some(1int) ==> (r matches Err(
            RegistryError::InvalidStateVersion { name, version },
        ) && name@ == meta.name@ && version == meta.version),
        spec_capture_fault(meta, captured) == Some(2int) ==> (r matches Err(
            RegistryError::InvalidSchema { name, version, target, message },
        ) && name@ == meta.name@ && version == meta.version && target@ == "arguments"@ && Some(message@)
            == spec_schema_error(captured.argument_schema)),
        spec_capture_fault(meta, captured) == Some(3int) ==> (r matches Err(
            RegistryError::InvalidSchema { name, version, target, message },
        ) && name@ == meta.name@ && version == meta.version && target@ == "output"@ && Some(message@)
            == spec_schema_error(captured.output_schema)),
        spec_capture_fault(meta, captured) is None ==> (r matches Ok(d) && d.spec_name() == meta.name@
            && d.spec_version() == meta.version && d.spec_is_default() == meta.is_default
            && d.spec_description() == meta.description@ && d.spec_state_schema_version()
            == captured.state_schema_version),
{
    if is_blank(meta.description.as_str()) || meta.description.as_str().as_bytes_vec().len() > 1024 {
        return Err(RegistryError::InvalidDescription { name: meta.name, version: meta.version });
    }
    if captured.state_schema_version == 0 {
        return Err(RegistryError::InvalidStateVersion { name: meta.name, version: meta.version });
    }
    proof {
        reveal_strlit("arguments");
        reveal_strlit("output");
    }
    match validate_schema(&captured.argument_schema) {
        Err(message) => return Err(
            RegistryError::InvalidSchema { name: meta.name, version: meta.version, target: "arguments", message },
        ),
        Ok(()) => {},
    }
    match validate_schema(&captured.output_schema) {
        Err(message) => return Err(
            RegistryError::InvalidSchema { name: meta.name, version: meta.version, target: "output", message },
        ),
        Ok(()) => {},
    }
    Ok(
        WorkflowDefinitionMetadata {
            name: meta.name,
            version: meta.version,
            description: meta.description,
            is_default: meta.is_default,
            stability: meta.stability,
            state_schema_version: captured.state_schema_version,
            argv_help: captured.argv_help,
            argument_schema: captured.argument_schema,
            output_schema: captured.output_schema,
        },
    )
}

// ---------------------------------------------------------------- builder

/// Mutable builder for a deterministic, versioned workflow registry.
pub struct WorkflowRegistryBuilder {
    definitions: Vec<WorkflowDefinitionMetadata>,
}

impl WorkflowRegistryBuilder {
    /// The registered definitions in name, then version, order.
    pub closed spec fn entries(&self) -> Seq<WorkflowDefinitionMetadata> {
        self.definitions@
    }

    #[verifier::type_invariant]
    closed spec fn wf(&self) -> bool {
        spec_sorted(self.definitions@) && spec_unique_defaults(self.definitions@)
    }

    pub fn new() -> (r: Self)
        ensures
            r.entries().len() == 0,
    {
        WorkflowRegistryBuilder { definitions: Vec::new() }
    }

    /// Registers one definition. A second definition with the same name and
    /// version, or a second default of a name, is refused; so is an invalid
    /// interface. On success the definition joins the others in key order.
    #[verifier::loop_isolation(false)]
    pub fn register(&mut self, meta: WorkflowMetadata, captured: CapturedInterface) -> (r: Result<
        (),
        RegistryError,
    >)
        ensures
            spec_has_key(old(self).entries(), meta.name@, meta.version) ==> (r matches Err(
                RegistryError::DuplicateVersion { name, version },
            ) && name@ == meta.name@ && version == meta.version),
            !spec_has_key(old(self).entries(), meta.name@, meta.version) && meta.is_default
                && spec_has_default(old(self).entries(), meta.name@) ==> (r matches Err(
                RegistryError::DuplicateDefault { name },
            ) && name@ == meta.name@),
            !spec_has_key(old(self).entries(), meta.name@, meta.version) && !(meta.is_default
                && spec_has_default(old(self).entries(), meta.name@)) ==> match spec_capture_fault(
                meta,
                captured,
            ) {
                Some(f) => r is Err,
                None => r is Ok,
            },
            r is Err ==> final(self).entries() == old(self).entries(),
            r is Ok ==> exists|p: int|
                0 <= p <= old(self).entries().len() && final(self).entries() == old(self).entries().insert(
                    p,
                    final(self).entries()[p],
                ) && final(self).entries()[p].spec_name() == meta.name@ && final(self).entries()[p].spec_version()
                    == meta.version && final(self).entries()[p].spec_is_default() == meta.is_default,
    {
        proof {
            use_type_invariant(&*self);
        }
        let n = self.definitions.len();
        let mut i: usize = 0;
        while i < n
            invariant
                i <= n == self.definitions@.len(),
                forall|j: int| 0 <= j < i ==> !((#[trigger] self.definitions@[j]).spec_name() == meta.name@
                    && self.definitions@[j].spec_version() == meta.version),
                forall|j: int| 0 <= j < i ==> !((#[trigger] self.definitions@[j]).spec_name() == meta.name@
                    && self.definitions@[j].spec_is_default()) || !meta.is_default || true,
            decreases n - i,
        {
            if str_eq(self.definitions[i].name.as_str(), meta.name.as_str()) && self.definitions[i].version
                == meta.version {
                return Err(RegistryError::DuplicateVersion { name: meta.name, version: meta.version });
            }
            i += 1;
        }
        assert(!spec_has_key(self.definitions@, meta.name@, meta.version));
        if meta.is_default {
            let mut k: usize = 0;
            while k < n
                invariant
                    k <= n == self.definitions@.len(),
                    forall|j: int| 0 <= j < k ==> !((#[trigger] self.definitions@[j]).spec_name()
                        == meta.name@ && self.definitions@[j].spec_is_default()),
                decreases n - k,
            {
                if self.definitions[k].is_default && str_eq(self.definitions[k].name.as_str(), meta.name.as_str()) {
                    assert(spec_has_default(self.definitions@, meta.name@));
                    return Err(RegistryError::DuplicateDefault { name: meta.name });
                }
                k += 1;
            }
        }
        assert(self.definitions@ == old(self).definitions@);
        let ghost name = meta.name@;
        let ghost version = meta.version;
        let ghost is_default = meta.is_default;
        assert(!(meta.is_default && spec_has_default(self.definitions@, meta.name@)));
        let d = capture_metadata(meta, captured)?;
        let mut p: usize = 0;
        while p < n && key_lt(self.definitions[p].name.as_str(), self.definitions[p].version, d.name.as_str(), d.version)
            invariant
                p <= n == self.definitions@.len(),
                forall|j: int| 0 <= j < p ==> spec_entry_lt(#[trigger] self.definitions@[j], d),
            decreases n - p,
        {
            p += 1;
        }
        let ghost before = self.definitions@;
        proof {
            assert forall|j: int| p <= j < n implies spec_entry_lt(d, #[trigger] before[j]) by {
                lemma_key_lt_facts(before[p as int].spec_name(), before[p as int].spec_version(), d.spec_name(), d.spec_version());
                if j > p {
                    assert(spec_entry_lt(before[p as int], before[j]));
                    lemma_key_lt_trans(d.spec_name(), d.spec_version(), before[p as int].spec_name(), before[p as int].spec_version(), before[j].spec_name(), before[j].spec_version());
                }
            }
            let after = before.insert(p as int, d);
            assert forall|x: int, y: int| 0 <= x < y < after.len() implies spec_entry_lt(#[trigger] after[x], #[trigger] after[y]) by {
                if x < p && y == p {
                } else if x < p && y > p {
                    assert(after[y] == before[y - 1]);
                    assert(x < y - 1);
                } else if x == p {
                    assert(after[y] == before[y - 1]);
                } else if x > p {
                    assert(after[x] == before[x - 1]);
                    assert(after[y] == before[y - 1]);
                }
            }
            assert forall|x: int, y: int|
                0 <= x < after.len() && 0 <= y < after.len() && (#[trigger] after[x]).spec_name() == (#[trigger] after[y]).spec_name()
                    && after[x].spec_is_default() && after[y].spec_is_default() implies x == y by {
                if x != y {
                    if x == p {
                        assert(after[y] == (if y < p { before[y] } else { before[y - 1] }));
                    } else if y == p {
                        assert(after[x] == (if x < p { before[x] } else { before[x - 1] }));
                    } else {
                        let bx = if x < p { x } else { x - 1 };
                        let by = if y < p { y } else { y - 1 };
                        assert(after[x] == before[bx]);
                        assert(after[y] == before[by]);
                    }
                }
            }
        }
        let mut defs: Vec<WorkflowDefinitionMetadata> = Vec::new();
        std::mem::swap(&mut defs, &mut self.definitions);
        defs.insert(p, d);
        self.definitions = defs;
        proof {
            assert(self.definitions@ == before.insert(p as int, self.definitions@[p as int]));
            assert(self.definitions@[p as int].spec_name() == name);
            assert(self.definitions@[p as int].spec_version() == version);
            assert(self.definitions@[p as int].spec_is_default() == is_default);
            assert(0 <= p <= before.len());
            assert(before == old(self).entries());
            assert(self.entries() == self.definitions@);
            assert(0 <= p <= old(self).entries().len() && self.entries() == old(self).entries().insert(
                p as int,
                self.entries()[p as int],
            ) && self.entries()[p as int].spec_name() == name && self.entries()[p as int].spec_version()
                == version && self.entries()[p as int].spec_is_default() == is_default);
        }
        Ok(())
    }

    /// Freezes the registry; every name must have a default. The first name
    /// (in key order) without one is reported.
    pub fn build(self) -> (r: Result<WorkflowRegistry, RegistryError>)
        ensures
            spec_all_defaulted(self.entries()) <==> r is Ok,
            r matches Ok(reg) ==> reg.entries() == self.entries(),
            r matches Err(e) ==> (e matches RegistryError::MissingDefault { name } && exists|i: int|
                0 <= i < self.entries().len() && (#[trigger] self.entries()[i]).spec_name() == name@
                    && !spec_has_default(self.entries(), name@)),
    {
        proof {
            use_type_invariant(&self);
        }
        let n = self.definitions.len();
        let mut i: usize = 0;
        while i < n
            invariant
                i <= n == self.definitions@.len(),
                forall|j: int| 0 <= j < i ==> spec_has_default(self.definitions@, (#[trigger] self.definitions@[j]).spec_name()),
            decreases n - i,
        {
            let mut found = false;
            let mut k: usize = 0;
            while k < n
                invariant
                    k <= n == self.definitions@.len(),
                    i < n,
                    found ==> spec_has_default(self.definitions@, self.definitions@[i as int].spec_name()),
                    !found ==> forall|j: int| 0 <= j < k ==> !((#[trigger] self.definitions@[j]).spec_name()
                        == self.definitions@[i as int].spec_name() && self.definitions@[j].spec_is_default()),
                decreases n - k,
            {
                if self.definitions[k].is_default && str_eq(self.definitions[k].name.as_str(), self.definitions[i].name.as_str()) {
                    found = true;
                }
                k += 1;
            }
            if !found {
                assert(!spec_has_default(self.definitions@, self.definitions@[i as int].spec_name()));
                assert(self.entries()[i as int] == self.definitions@[i as int]);
                return Err(RegistryError::MissingDefault { name: owned(self.definitions[i].name.as_str()) });
            }
            i += 1;
        }
        Ok(WorkflowRegistry { definitions: self.definitions })
    }
}

// ---------------------------------------------------------------- registry

/// Immutable deterministic registry of reviewed workflow definitions.
pub struct WorkflowRegistry {
    definitions: Vec<WorkflowDefinitionMetadata>,
}

/// What resolving `name` at `version` (or at its default) gives.
pub open spec fn spec_resolve_key(
    e: Seq<WorkflowDefinitionMetadata>,
    name: Seq<char>,
    version: Option<WorkflowVersion>,
) -> Option<WorkflowVersion> {
    match version {
        Some(v) => Some(v),
        None => if spec_has_default(e, name) {
            Some(
                e[choose|i: int| 0 <= i < e.len() && (#[trigger] e[i]).spec_name() == name && e[i].spec_is_default()].spec_version(),
            )
        } else {
            None
        },
    }
}

impl WorkflowRegistry {
    /// The definitions in name, then version, order.
    pub closed spec fn entries(&self) -> Seq<WorkflowDefinitionMetadata> {
        self.definitions@
    }

    #[verifier::type_invariant]
    closed spec fn wf(&self) -> bool {
        spec_sorted(self.definitions@) && spec_unique_defaults(self.definitions@) && spec_all_defaulted(
            self.definitions@,
        )
    }

    /// Definitions in workflow-name then semantic-version order.
    pub fn definitions(&self) -> (r: &Vec<WorkflowDefinitionMetadata>)
        ensures
            r@ == self.entries(),
            spec_sorted(r@),
            spec_all_defaulted(r@),
            spec_unique_defaults(r@),
    {
        proof {
            use_type_invariant(self);
        }
        &self.definitions
    }

    /// Resolves an exact version, or the name's default.
    pub fn resolve(&self, name: &str, version: Option<WorkflowVersion>) -> (r: Result<
        &WorkflowDefinitionMetadata,
        RegistryError,
    >)
        ensures
            match spec_resolve_key(self.entries(), name@, version) {
                None => r matches Err(RegistryError::UnknownWorkflow { name: n }) && n@ == name@,
                Some(v) => if spec_has_key(self.entries(), name@, v) {
                    r matches Ok(d) && d.spec_name() == name@ && d.spec_version() == v
                        && exists|i: int| 0 <= i < self.entries().len() && self.entries()[i] == *d
                } else if spec_has_default(self.entries(), name@) {
                    r matches Err(RegistryError::UnknownVersion { name: n, version: x }) && n@ == name@ && x == v
                } else {
                    r matches Err(RegistryError::UnknownWorkflow { name: n }) && n@ == name@
                },
            },
    {
        proof {
            use_type_invariant(self);
        }
        let n = self.definitions.len();
        let mut default: Option<WorkflowVersion> = None;
        let mut k: usize = 0;
        while k < n
            invariant
                k <= n == self.definitions@.len(),
                spec_unique_defaults(self.definitions@),
                match default {
                    Some(v) => exists|j: int| 0 <= j < k && (#[trigger] self.definitions@[j]).spec_name() == name@
                        && self.definitions@[j].spec_is_default() && self.definitions@[j].spec_version() == v,
                    None => forall|j: int| 0 <= j < k ==> !((#[trigger] self.definitions@[j]).spec_name()
                        == name@ && self.definitions@[j].spec_is_default()),
                },
            decreases n - k,
        {
            if self.definitions[k].is_default && str_eq(self.definitions[k].name.as_str(), name) {
                default = Some(self.definitions[k].version);
            }
            k += 1;
        }
        proof {
            if let Some(v) = default {
                let e = self.definitions@;
                let c = choose|i: int| 0 <= i < e.len() && (#[trigger] e[i]).spec_name() == name@ && e[i].spec_is_default();
                let j = choose|j: int| 0 <= j < n && (#[trigger] e[j]).spec_name() == name@ && e[j].spec_is_default() && e[j].spec_version() == v;
                assert(c == j);
                assert(spec_resolve_key(e, name@, None) == Some(v));
            }
        }
        let resolved = match version {
            Some(v) => v,
            None => match default {
                Some(v) => v,
                None => return Err(RegistryError::UnknownWorkflow { name: owned(name) }),
            },
        };
        assert(spec_resolve_key(self.entries(), name@, version) == Some(resolved));
        let mut i: usize = 0;
        while i < n
            invariant
                i <= n == self.definitions@.len(),
                spec_resolve_key(self.entries(), name@, version) == Some(resolved),
                self.entries() == self.definitions@,
                default is Some <==> spec_has_default(self.entries(), name@),
                forall|j: int| 0 <= j < i ==> !((#[trigger] self.definitions@[j]).spec_name() == name@
                    && self.definitions@[j].spec_version() == resolved),
            decreases n - i,
        {
            if str_eq(self.definitions[i].name.as_str(), name) && self.definitions[i].version == resolved {
                assert(self.entries()[i as int] == self.definitions@[i as int]);
                return Ok(&self.definitions[i]);
            }
            i += 1;
        }
        if default.is_some() {
            Err(RegistryError::UnknownVersion { name: owned(name), version: resolved })
        } else {
            Err(RegistryError::UnknownWorkflow { name: owned(name) })
        }
    }
}

// ---------------------------------------------------------------- schemas

/// A `$ref` into `#/definitions/` that `defs` (the root's `definitions`
/// object, if it has one) does not define.
pub open spec fn spec_dangling(r: Seq<char>, defs: Option<Seq<(String, JsonValue)>>) -> bool {
    crate::text::spec_starts_with(r, "#/definitions/"@) && !(match defs {
        Some(d) => crate::json::spec_member_from(d, r.skip(14), 0) is Some,
        None => false,
    })
}

/// The first dangling local reference in `v`, depth first, members in order.
pub open spec fn spec_first_dangling(v: JsonValue, defs: Option<Seq<(String, JsonValue)>>) -> Option<Seq<char>>
    decreases v, 0int,
{
    match v {
        JsonValue::Object(members) => match crate::json::spec_get_str(v, "$ref"@) {
            Some(r) if spec_dangling(r, defs) => Some(r),
            _ => spec_first_dangling_members(members, defs, 0),
        },
        JsonValue::Array(items) => spec_first_dangling_items(items, defs, 0),
        _ => None,
    }
}

pub open spec fn spec_first_dangling_members(
    ms: Vec<(String, JsonValue)>,
    defs: Option<Seq<(String, JsonValue)>>,
    i: int,
) -> Option<Seq<char>>
    decreases ms, ms@.len() - i,
{
    if i < 0 || i >= ms@.len() {
        None
    } else {
        proof {
            assert(decreases_to!(ms => ms@));
            assert(decreases_to!(ms@ => ms@[i]));
            assert(decreases_to!(ms@[i] => ms@[i].1));
        }
        match spec_first_dangling(ms@[i].1, defs) {
            Some(r) => Some(r),
            None => spec_first_dangling_members(ms, defs, i + 1),
        }
    }
}

pub open spec fn spec_first_dangling_items(
    items: Vec<JsonValue>,
    defs: Option<Seq<(String, JsonValue)>>,
    i: int,
) -> Option<Seq<char>>
    decreases items, items@.len() - i,
{
    if i < 0 || i >= items@.len() {
        None
    } else {
        proof {
            assert(decreases_to!(items => items@));
            assert(decreases_to!(items@ => items@[i]));
        }
        match spec_first_dangling(items@[i], defs) {
            Some(r) => Some(r),
            None => spec_first_dangling_items(items, defs, i + 1),
        }
    }
}

pub open spec fn spec_defs_view(defs: Option<&Vec<(String, JsonValue)>>) -> Option<Seq<(String, JsonValue)>> {
    match defs {
        Some(d) => Some(d@),
        None => None,
    }
}

fn member_named(ms: &Vec<(String, JsonValue)>, key: &Vec<char>) -> (r: bool)
    ensures
        r == crate::json::spec_member_from(ms@, key@, 0) is Some,
{
    let mut i: usize = 0;
    while i < ms.len()
        invariant
            i <= ms.len(),
            crate::json::spec_member_from(ms@, key@, 0) == crate::json::spec_member_from(ms@, key@, i as int),
        decreases ms.len() - i,
    {
        if crate::text::vec_eq(key, ms[i].0.as_str()) {
            return true;
        }
        i += 1;
    }
    false
}

fn dangling(r: &str, defs: Option<&Vec<(String, JsonValue)>>) -> (b: bool)
    ensures
        b == spec_dangling(r@, spec_defs_view(defs)),
{
    let cs = chars_of(r);
    proof {
        reveal_strlit("#/definitions/");
    }
    if !crate::text::starts_with(&cs, "#/definitions/") {
        return false;
    }
    let mut key: Vec<char> = Vec::new();
    let mut k: usize = 14;
    while k < cs.len()
        invariant
            14 <= k <= cs.len(),
            key@ == cs@.subrange(14, k as int),
        decreases cs.len() - k,
    {
        key.push(cs[k]);
        assert(cs@.subrange(14, k + 1) == cs@.subrange(14, k as int).push(cs@[k as int]));
        k += 1;
    }
    assert(key@ == r@.skip(14));
    match defs {
        Some(d) => !member_named(d, &key),
        None => true,
    }
}

/// The first dangling local reference of a schema value.
fn first_dangling(v: &JsonValue, defs: Option<&Vec<(String, JsonValue)>>) -> (r: Option<String>)
    ensures
        crate::text::spec_opt_str(r) == spec_first_dangling(*v, spec_defs_view(defs)),
    decreases *v, 0int,
{
    proof {
        reveal_strlit("$ref");
    }
    match v {
        JsonValue::Object(members) => {
            match v.get_str("$ref") {
                Some(r) => {
                    if dangling(r, defs) {
                        return Some(owned(r));
                    }
                },
                None => {},
            }
            let mut i: usize = 0;
            while i < members.len()
                invariant
                    i <= members.len(),
                    *v == JsonValue::Object(*members),
                    spec_first_dangling(*v, spec_defs_view(defs)) == (match crate::json::spec_get_str(*v, "$ref"@) {
                        Some(r) if spec_dangling(r, spec_defs_view(defs)) => Some(r),
                        _ => spec_first_dangling_members(*members, spec_defs_view(defs), 0),
                    }),
                    !(crate::json::spec_get_str(*v, "$ref"@) matches Some(r) && spec_dangling(r, spec_defs_view(defs))),
                    spec_first_dangling_members(*members, spec_defs_view(defs), 0)
                        == spec_first_dangling_members(*members, spec_defs_view(defs), i as int),
                decreases members.len() - i,
            {
                proof {
                    assert(decreases_to!(*v => *members));
                    assert(decreases_to!(*members => members@));
                    assert(decreases_to!(members@ => members@[i as int]));
                    assert(decreases_to!(members@[i as int] => members@[i as int].1));
                }
                let found = first_dangling(&members[i].1, defs);
                if found.is_some() {
                    return found;
                }
                i += 1;
            }
            None
        },
        JsonValue::Array(items) => {
            let mut i: usize = 0;
            while i < items.len()
                invariant
                    i <= items.len(),
                    *v == JsonValue::Array(*items),
                    spec_first_dangling(*v, spec_defs_view(defs)) == spec_first_dangling_items(*items, spec_defs_view(defs), 0),
                    spec_first_dangling_items(*items, spec_defs_view(defs), 0)
                        == spec_first_dangling_items(*items, spec_defs_view(defs), i as int),
                decreases items.len() - i,
            {
                proof {
                    assert(decreases_to!(*v => *items));
                    assert(decreases_to!(*items => items@));
                    assert(decreases_to!(items@ => items@[i as int]));
                }
                let found = first_dangling(&items[i], defs);
                if found.is_some() {
                    return found;
                }
                i += 1;
            }
            None
        },
        _ => None,
    }
}

/// Why a schema is refused, if it is.
pub open spec fn spec_schema_error(schema: JsonValue) -> Option<Seq<char>> {
    if !(schema is Object) {
        Some("root schema is not an object"@)
    } else {
        match spec_first_dangling(
            schema,
            match crate::json::spec_get(schema, "definitions"@) {
                Some(JsonValue::Object(d)) => Some(d@),
                _ => None,
            },
        ) {
            None => None,
            Some(reference) => Some("unresolved local reference "@ + reference),
        }
    }
}

/// A generated schema must be an object whose local references all resolve
/// in its `definitions`.
pub fn validate_schema(schema: &JsonValue) -> (r: Result<(), String>)
    ensures
        match spec_schema_error(*schema) {
            None => r is Ok,
            Some(message) => r matches Err(m) && m@ == message,
        },
{
    if !schema.is_object() {
        return Err(owned("root schema is not an object"));
    }
    proof {
        reveal_strlit("definitions");
    }
    let defs: Option<&Vec<(String, JsonValue)>> = match schema.get("definitions") {
        Some(JsonValue::Object(d)) => Some(d),
        _ => None,
    };
    match first_dangling(schema, defs) {
        None => Ok(()),
        Some(reference) => {
            let mut m = owned("unresolved local reference ");
            crate::text::push_str(&mut m, reference.as_str());
            Err(m)
        },
    }
}

// ---------------------------------------------------------------- checkpoints

/// Reducer failures that checkpoint handling reports.
#[derive(Clone, Debug, PartialEq, Eq)]
pub enum WorkflowError {
    UnsupportedStateVersion { expected: u32, actual: u32 },
    Serialization(String),
}

/// Versioned JSON checkpoint stored between reducer steps.
#[derive(Debug, PartialEq)]
pub struct WorkflowCheckpoint {
    state_schema_version: u32,
    state: JsonValue,
}

impl WorkflowCheckpoint {
    pub closed spec fn spec_state_schema_version(&self) -> u32 {
        self.state_schema_version
    }

    pub closed spec fn spec_state(&self) -> JsonValue {
        self.state
    }

    /// A checkpoint of an already serialized state.
    pub fn new(state_schema_version: u32, state: JsonValue) -> (r: Self)
        ensures
            r.spec_state_schema_version() == state_schema_version,
            r.spec_state() == state,
    {
        WorkflowCheckpoint { state_schema_version, state }
    }

    pub fn state_schema_version(&self) -> (r: u32)
        ensures
            r == self.spec_state_schema_version(),
    {
        self.state_schema_version
    }

    pub fn state(&self) -> (r: &JsonValue)
        ensures
            *r == self.spec_state(),
    {
        &self.state
    }

    /// The serialized state, for a reader of schema version `expected` only.
    pub fn into_state(self, expected: u32) -> (r: Result<JsonValue, WorkflowError>)
        ensures
            self.spec_state_schema_version() == expected ==> r == Ok::<JsonValue, WorkflowError>(self.spec_state()),
            self.spec_state_schema_version() != expected ==> r == Err::<JsonValue, WorkflowError>(
                WorkflowError::UnsupportedStateVersion { expected, actual: self.spec_state_schema_version() },
            ),
    {
        if self.state_schema_version != expected {
            return Err(WorkflowError::UnsupportedStateVersion { expected, actual: self.state_schema_version });
        }
        Ok(self.state)
    }
}

impl WorkflowDefinitionMetadata {
    /// A stored checkpoint resumes only under the exact state schema version
    /// this definition registered.
    pub fn validate_checkpoint(&self, checkpoint: &WorkflowCheckpoint) -> (r: Result<(), WorkflowError>)
        ensures
            checkpoint.spec_state_schema_version() == self.spec_state_schema_version() <==> r is Ok,
            r is Err ==> r == Err::<(), WorkflowError>(
                WorkflowError::UnsupportedStateVersion {
                    expected: self.spec_state_schema_version(),
                    actual: checkpoint.spec_state_schema_version(),
                },
            ),
    {
        if checkpoint.state_schema_version != self.state_schema_version {
            return Err(
                WorkflowError::UnsupportedStateVersion {
                    expected: self.state_schema_version,
                    actual: checkpoint.state_schema_version,
                },
            );
        }
        Ok(())
    }
}

} // verus!
