//! Plugin manifest format: the static file every plugin ships declaring its identity,
//! the contract versions it targets, and the network hosts it requires.
//!
//! The checks here cover field presence and format only. They perform no host-side
//! enforcement (network reachability, capability granting, enable/disable state), and
//! no declared network host is contacted.

use vstd::prelude::*;

use crate::version::{parse_version_spec, Version};

verus! {

#[verifier::external_type_specification]
#[verifier::external_body]
pub struct ExTomlError(toml::de::Error);

/// A validated plugin manifest.
#[derive(Debug, Clone, PartialEq, Eq)]
pub struct Manifest {
    /// Plugin identifier, unique among plugins the host loads.
    pub id: String,
    /// Human-readable display name (e.g. `"Bundesliga"`), distinct from `id`.
    pub name: String,
    /// Plugin's own release version (not a contract version).
    pub version: String,
    /// Canonical schema version this plugin's output targets.
    pub schema_version: Version,
    /// Data-provider interface version this plugin was built against.
    pub interface_version: Version,
    /// Network hosts this plugin requires access to, exactly as declared.
    pub network_hosts: Vec<String>,
    /// Optional display name of the plugin's author or publisher.
    pub developer: Option<String>,
    /// Optional build timestamp, conventionally RFC 3339; kept as declared, not parsed.
    pub build_date: Option<String>,
}

/// The fields of a manifest as they appear in its source, before any check.
#[derive(Debug, Clone, Default)]
pub struct RawManifest {
    /// The `id` entry, if present.
    pub id: Option<String>,
    /// The `name` entry, if present.
    pub name: Option<String>,
    /// The `version` entry, if present.
    pub version: Option<String>,
    /// The `schema_version` entry, if present.
    pub schema_version: Option<String>,
    /// The `interface_version` entry, if present.
    pub interface_version: Option<String>,
    /// The `network_hosts` entry, if present.
    pub network_hosts: Option<Vec<String>>,
    /// The `developer` entry, if present.
    pub developer: Option<String>,
    /// The `build_date` entry, if present.
    pub build_date: Option<String>,
}

/// A manifest field that failed presence or format validation.
#[derive(Debug, Clone, Copy, PartialEq, Eq, Structural, Hash)]
pub enum ManifestField {
    /// The `id` field.
    Id,
    /// The `name` field.
    Name,
    /// The `version` field.
    Version,
    /// The `schema_version` field.
    SchemaVersion,
    /// The `interface_version` field.
    InterfaceVersion,
    /// The `network_hosts` field.
    NetworkHosts,
    /// The `developer` field.
    Developer,
    /// The `build_date` field.
    BuildDate,
}

/// Error returned when a manifest fails to parse.
#[derive(Debug)]
pub enum ManifestError {
    /// The manifest is not well-formed TOML.
    Malformed(toml::de::Error),
    /// A required field is missing, or a present field has an invalid format.
    InvalidField {
        /// The field that failed validation.
        field: ManifestField,
        /// Human-readable reason, safe to surface to a plugin author.
        reason: String,
    },
}

impl From<toml::de::Error> for ManifestError {
    fn from(err: toml::de::Error) -> (e: Self) {
        ManifestError::Malformed(err)
    }
}

impl vstd::std_specs::convert::FromSpecImpl<toml::de::Error> for ManifestError {
    open spec fn obeys_from_spec() -> bool {
        true
    }

    open spec fn from_spec(err: toml::de::Error) -> Self {
        ManifestError::Malformed(err)
    }
}

/// The name under which `field` appears in a manifest.
pub open spec fn field_name(field: ManifestField) -> Seq<char> {
    match field {
        ManifestField::Id => "id"@,
        ManifestField::Name => "name"@,
        ManifestField::Version => "version"@,
        ManifestField::SchemaVersion => "schema_version"@,
        ManifestField::InterfaceVersion => "interface_version"@,
        ManifestField::NetworkHosts => "network_hosts"@,
        ManifestField::Developer => "developer"@,
        ManifestField::BuildDate => "build_date"@,
    }
}

impl ManifestField {
    /// The name under which this field appears in a manifest; what `Display` writes for
    /// it.
    pub fn to_string(&self) -> (s: String)
        ensures
            s@ == field_name(*self),
    {
        let name = match self {
            ManifestField::Id => "id",
            ManifestField::Name => "name",
            ManifestField::Version => "version",
            ManifestField::SchemaVersion => "schema_version",
            ManifestField::InterfaceVersion => "interface_version",
            ManifestField::NetworkHosts => "network_hosts",
            ManifestField::Developer => "developer",
            ManifestField::BuildDate => "build_date",
        };
        String::from_str(name)
    }
}

/// What `<str as Debug>::fmt` writes for a string with the characters `s`: the string in
/// double quotes, with quotes, backslashes and unprintable characters escaped.
pub uninterp spec fn debug_text(s: Seq<char>) -> Seq<char>;

/// The quoted, escaped form of `s`, as `format!("{s:?}")` writes it.
///
/// Calls std's `Debug` formatting of `str`. The contract claims only that the result is
/// a fixed function of the characters of `s`, named `debug_text`; the escaping rules
/// themselves are not stated.
#[verifier::external_body]
fn debug_quoted(s: &str) -> (r: String)
    ensures
        r@ == debug_text(s@),
{
    format!("{s:?}")
}

/// A Unicode `White_Space` character: what `char::is_whitespace` accepts and what
/// `str::trim` removes.
pub open spec fn is_white_space(c: char) -> bool {
    ||| ('\u{9}' <= c && c <= '\u{d}')
    ||| c == ' '
    ||| c == '\u{85}'
    ||| c == '\u{a0}'
    ||| c == '\u{1680}'
    ||| ('\u{2000}' <= c && c <= '\u{200a}')
    ||| c == '\u{2028}'
    ||| c == '\u{2029}'
    ||| c == '\u{202f}'
    ||| c == '\u{205f}'
    ||| c == '\u{3000}'
}

/// `s` is empty once trimmed: every character of it is white space.
pub open spec fn is_blank(s: Seq<char>) -> bool {
    forall|i: int| 0 <= i < s.len() ==> #[trigger] is_white_space(s[i])
}

/// `e` reports `field` as invalid for the reason `reason`.
pub open spec fn is_invalid_field(e: ManifestError, field: ManifestField, reason: Seq<char>) -> bool {
    e matches ManifestError::InvalidField { field: f, reason: r } && f == field && r@ == reason
}

/// The reason given for a required field that is absent.
pub open spec fn required_reason() -> Seq<char> {
    "field is required"@
}

/// The reason given for a version field whose text `raw` is not a version.
pub open spec fn version_reason(raw: Seq<char>) -> Seq<char> {
    debug_text(raw) + " is not a valid \"major.minor\" version"@
}

/// The reason given for a blank `name`.
pub open spec fn blank_name_reason() -> Seq<char> {
    "name must not be empty"@
}

/// The reason given for a blank entry of `network_hosts`.
pub open spec fn blank_host_reason() -> Seq<char> {
    "network_hosts entries must not be empty"@
}

/// The reason given for a present but blank `developer`.
pub open spec fn blank_developer_reason() -> Seq<char> {
    "developer must not be empty"@
}

/// The reason given for a present but blank `build_date`.
pub open spec fn blank_build_date_reason() -> Seq<char> {
    "build_date must not be empty"@
}

/// Some entry of `hosts` is blank.
pub open spec fn has_blank_host(hosts: Seq<String>) -> bool {
    exists|i: int| 0 <= i < hosts.len() && is_blank(#[trigger] hosts[i]@)
}

/// An optional field that is present but blank.
pub open spec fn present_but_blank(value: Option<String>) -> bool {
    value matches Some(s) && is_blank(s@)
}

/// The first problem found in `raw`, in the order the checks run, as the field and the
/// reason; `None` when `raw` is a valid manifest.
///
/// First each required field must be present (and each version field a version), in
/// the order `id`, `name`, `version`, `schema_version`, `interface_version`,
/// `network_hosts`; then `name` must not be blank, no `network_hosts` entry may be blank,
/// and `developer` and `build_date`, where present, must not be blank.
pub open spec fn first_problem(raw: RawManifest) -> Option<(ManifestField, Seq<char>)> {
    if raw.id is None {
        Some((ManifestField::Id, required_reason()))
    } else if raw.name is None {
        Some((ManifestField::Name, required_reason()))
    } else if raw.version is None {
        Some((ManifestField::Version, required_reason()))
    } else if raw.schema_version is None {
        Some((ManifestField::SchemaVersion, required_reason()))
    } else if parse_version_spec(raw.schema_version->0@) is None {
        Some((ManifestField::SchemaVersion, version_reason(raw.schema_version->0@)))
    } else if raw.interface_version is None {
        Some((ManifestField::InterfaceVersion, required_reason()))
    } else if parse_version_spec(raw.interface_version->0@) is None {
        Some((ManifestField::InterfaceVersion, version_reason(raw.interface_version->0@)))
    } else if raw.network_hosts is None {
        Some((ManifestField::NetworkHosts, required_reason()))
    } else if is_blank(raw.name->0@) {
        Some((ManifestField::Name, blank_name_reason()))
    } else if has_blank_host(raw.network_hosts->0@) {
        Some((ManifestField::NetworkHosts, blank_host_reason()))
    } else if present_but_blank(raw.developer) {
        Some((ManifestField::Developer, blank_developer_reason()))
    } else if present_but_blank(raw.build_date) {
        Some((ManifestField::BuildDate, blank_build_date_reason()))
    } else {
        None
    }
}

/// `m` is the manifest that the problem-free `raw` describes: every field as declared,
/// with the two version fields read as versions.
pub open spec fn describes(raw: RawManifest, m: Manifest) -> bool {
    &&& raw.id == Some(m.id)
    &&& raw.name == Some(m.name)
    &&& raw.version == Some(m.version)
    &&& parse_version_spec(raw.schema_version->0@) == Some(m.schema_version)
    &&& parse_version_spec(raw.interface_version->0@) == Some(m.interface_version)
    &&& raw.network_hosts == Some(m.network_hosts)
    &&& raw.developer == m.developer
    &&& raw.build_date == m.build_date
}

/// A manifest that lacks any of `id`, `name`, `version`, `schema_version`,
/// `interface_version` or `network_hosts` is rejected.
pub proof fn lemma_missing_required_field_rejected(raw: RawManifest)
    requires
        raw.id is None || raw.name is None || raw.version is None || raw.schema_version is None
            || raw.interface_version is None || raw.network_hosts is None,
    ensures
        first_problem(raw) is Some,
{
}

/// A manifest whose required fields are all present, whose version fields are versions,
/// whose `name` and `network_hosts` entries are not blank and whose optional fields are
/// not blank where present is accepted, whatever hosts it names.
pub proof fn lemma_well_formed_manifest_accepted(raw: RawManifest)
    requires
        raw.id is Some,
        raw.name matches Some(n) && !is_blank(n@),
        raw.version is Some,
        raw.schema_version matches Some(v) && parse_version_spec(v@) is Some,
        raw.interface_version matches Some(v) && parse_version_spec(v@) is Some,
        raw.network_hosts matches Some(hosts) && forall|i: int|
            0 <= i < hosts@.len() ==> !is_blank(#[trigger] hosts@[i]@),
        !present_but_blank(raw.developer),
        !present_but_blank(raw.build_date),
    ensures
        first_problem(raw) is None,
{
}

/// The optional build metadata never turns a manifest's outcome around: adding a
/// non-blank `developer` and `build_date` to a manifest that has neither leaves the
/// first problem found, or its absence, unchanged.
pub proof fn lemma_build_metadata_is_optional(
    raw: RawManifest,
    developer: String,
    build_date: String,
)
    requires
        raw.developer is None,
        raw.build_date is None,
        !is_blank(developer@),
        !is_blank(build_date@),
    ensures
        first_problem(raw) == first_problem(
            RawManifest { developer: Some(developer), build_date: Some(build_date), ..raw },
        ),
{
}

/// `s` holds a character that is not white space (so in particular it is not empty).
pub open spec fn has_visible_char(s: Seq<char>) -> bool {
    exists|k: int| 0 <= k < s.len() && !is_white_space(#[trigger] s[k])
}

/// What every accepted manifest holds: its `name`, each of its `network_hosts` entries,
/// and its `developer` and `build_date` where present each contain a character that is
/// not white space (so none of them is empty), and its two versions are what the
/// declared version texts denote.
pub proof fn lemma_accepted_manifest_is_not_blank(raw: RawManifest, m: Manifest)
    requires
        first_problem(raw) is None,
        describes(raw, m),
    ensures
        m.name@.len() > 0,
        has_visible_char(m.name@),
        forall|i: int|
            0 <= i < m.network_hosts@.len() ==> has_visible_char(#[trigger] m.network_hosts@[i]@),
        m.developer matches Some(d) ==> has_visible_char(d@),
        m.build_date matches Some(b) ==> has_visible_char(b@),
        parse_version_spec(raw.schema_version->0@) == Some(m.schema_version),
        parse_version_spec(raw.interface_version->0@) == Some(m.interface_version),
{
    assert(!is_blank(m.name@));
    assert forall|i: int| 0 <= i < m.network_hosts@.len() implies has_visible_char(
        #[trigger] m.network_hosts@[i]@,
    ) by {
        assert(!is_blank(m.network_hosts@[i]@));
    }
}

/// A manifest whose required fields are present and whose versions are versions, but
/// whose `name` is empty or only white space, is rejected for its `name`.
pub proof fn lemma_blank_name_rejected(raw: RawManifest)
    requires
        raw.id is Some,
        raw.name matches Some(n) && forall|k: int| 0 <= k < n@.len() ==> is_white_space(
            #[trigger] n@[k],
        ),
        raw.version is Some,
        raw.schema_version matches Some(v) && parse_version_spec(v@) is Some,
        raw.interface_version matches Some(v) && parse_version_spec(v@) is Some,
        raw.network_hosts is Some,
    ensures
        first_problem(raw) == Some((ManifestField::Name, "name must not be empty"@)),
{
}

/// A manifest with an empty `name` is never accepted.
pub proof fn lemma_empty_name_never_accepted(raw: RawManifest)
    requires
        raw.name matches Some(n) && n@.len() == 0,
    ensures
        first_problem(raw) is Some,
{
}

/// A manifest with an entry of `network_hosts`, at any position, that is empty or only
/// white space is never accepted.
pub proof fn lemma_blank_host_never_accepted(raw: RawManifest, i: int)
    requires
        raw.network_hosts matches Some(hosts) && 0 <= i < hosts@.len() && forall|k: int|
            0 <= k < hosts@[i]@.len() ==> is_white_space(#[trigger] hosts@[i]@[k]),
    ensures
        first_problem(raw) is Some,
{
    assert(is_blank(raw.network_hosts->0@[i]@));
}

/// A manifest whose `developer` or `build_date` is present but empty or only white
/// space is never accepted.
pub proof fn lemma_blank_build_metadata_never_accepted(raw: RawManifest)
    requires
        (raw.developer matches Some(d) && forall|k: int| 0 <= k < d@.len() ==> is_white_space(
            #[trigger] d@[k],
        )) || (raw.build_date matches Some(b) && forall|k: int|
            0 <= k < b@.len() ==> is_white_space(#[trigger] b@[k])),
    ensures
        first_problem(raw) is Some,
{
}

/// Unwraps a required field, or reports it as missing.
pub fn required<T>(value: Option<T>, field: ManifestField) -> (r: Result<T, ManifestError>)
    ensures
        match value {
            Some(v) => r == Ok::<T, ManifestError>(v),
            None => r matches Err(e) && is_invalid_field(e, field, required_reason()),
        },
{
    match value {
        Some(v) => Ok(v),
        None => Err(ManifestError::InvalidField { field, reason: String::from_str("field is required") }),
    }
}

/// Reads a required version field: it must be present and a `"major.minor"` version.
pub fn parse_version(value: Option<String>, field: ManifestField) -> (r: Result<Version, ManifestError>)
    ensures
        match value {
            None => r matches Err(e) && is_invalid_field(e, field, required_reason()),
            Some(raw) => match parse_version_spec(raw@) {
                Some(v) => r == Ok::<Version, ManifestError>(v),
                None => r matches Err(e) && is_invalid_field(e, field, version_reason(raw@)),
            },
        },
{
    let raw = match required(value, field) {
        Ok(raw) => raw,
        Err(e) => return Err(e),
    };
    match Version::parse(raw.as_str()) {
        Ok(v) => Ok(v),
        Err(_) => {
            let mut reason = debug_quoted(raw.as_str());
            reason.append(" is not a valid \"major.minor\" version");
            Err(ManifestError::InvalidField { field, reason })
        },
    }
}

/// Whether `c` is a Unicode `White_Space` character.
fn is_white_space_char(c: char) -> (b: bool)
    ensures
        b == is_white_space(c),
{
    ('\u{9}' <= c && c <= '\u{d}') || c == ' ' || c == '\u{85}' || c == '\u{a0}' || c
        == '\u{1680}' || ('\u{2000}' <= c && c <= '\u{200a}') || c == '\u{2028}' || c
        == '\u{2029}' || c == '\u{202f}' || c == '\u{205f}' || c == '\u{3000}'
}

/// Whether `s` is empty once trimmed, i.e. `s.trim().is_empty()`.
pub fn is_blank_str(s: &str) -> (b: bool)
    ensures
        b == is_blank(s@),
{
    let n = s.unicode_len();
    let mut i: usize = 0;
    while i < n
        invariant
            n == s@.len(),
            i <= n,
            forall|j: int| 0 <= j < i ==> #[trigger] is_white_space(s@[j]),
        decreases n - i,
    {
        if !is_white_space_char(s.get_char(i)) {
            return false;
        }
        i += 1;
    }
    true
}

/// Whether some entry of `hosts` is blank.
fn any_blank_host(hosts: &Vec<String>) -> (b: bool)
    ensures
        b == has_blank_host(hosts@),
{
    let mut i: usize = 0;
    while i < hosts.len()
        invariant
            i <= hosts@.len(),
            forall|j: int| 0 <= j < i ==> !is_blank(#[trigger] hosts@[j]@),
        decreases hosts.len() - i,
    {
        if is_blank_str(hosts[i].as_str()) {
            return true;
        }
        i += 1;
    }
    false
}

/// Whether an optional field is present but blank.
fn is_present_but_blank(value: &Option<String>) -> (b: bool)
    ensures
        b == present_but_blank(*value),
{
    match value {
        Some(s) => is_blank_str(s.as_str()),
        None => false,
    }
}

impl Manifest {
    /// Validates the fields of a manifest read from its source.
    ///
    /// Returns the manifest that `raw` describes when it has no problem, and otherwise an
    /// `InvalidField` error naming the first problem found (see `first_problem`). No
    /// network host is contacted or validated beyond not being blank.
    pub fn from_raw(raw: RawManifest) -> (r: Result<Manifest, ManifestError>)
        ensures
            match r {
                Ok(m) => first_problem(raw) is None && describes(raw, m),
                Err(e) => first_problem(raw) matches Some((field, reason)) && is_invalid_field(
                    e,
                    field,
                    reason,
                ),
            },
    {
        let RawManifest {
            id,
            name,
            version,
            schema_version,
            interface_version,
            network_hosts,
            developer,
            build_date,
        } = raw;
        let id = match required(id, ManifestField::Id) {
            Ok(v) => v,
            Err(e) => return Err(e),
        };
        let name = match required(name, ManifestField::Name) {
            Ok(v) => v,
            Err(e) => return Err(e),
        };
        let version = match required(version, ManifestField::Version) {
            Ok(v) => v,
            Err(e) => return Err(e),
        };
        let schema_version = match parse_version(schema_version, ManifestField::SchemaVersion) {
            Ok(v) => v,
            Err(e) => return Err(e),
        };
        let interface_version = match parse_version(
            interface_version,
            ManifestField::InterfaceVersion,
        ) {
            Ok(v) => v,
            Err(e) => return Err(e),
        };
        let network_hosts = match required(network_hosts, ManifestField::NetworkHosts) {
            Ok(v) => v,
            Err(e) => return Err(e),
        };
        if is_blank_str(name.as_str()) {
            return Err(
                ManifestError::InvalidField {
                    field: ManifestField::Name,
                    reason: String::from_str("name must not be empty"),
                },
            );
        }
        if any_blank_host(&network_hosts) {
            return Err(
                ManifestError::InvalidField {
                    field: ManifestField::NetworkHosts,
                    reason: String::from_str("network_hosts entries must not be empty"),
                },
            );
        }
        if is_present_but_blank(&developer) {
            return Err(
                ManifestError::InvalidField {
                    field: ManifestField::Developer,
                    reason: String::from_str("developer must not be empty"),
                },
            );
        }
        if is_present_but_blank(&build_date) {
            return Err(
                ManifestError::InvalidField {
                    field: ManifestField::BuildDate,
                    reason: String::from_str("build_date must not be empty"),
                },
            );
        }
        Ok(
            Manifest {
                id,
                name,
                version,
                schema_version,
                interface_version,
                network_hosts,
                developer,
                build_date,
            },
        )
    }
}

} // verus!
