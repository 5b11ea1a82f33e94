//! Choosing the verbosity filter: an override in the filter grammar of
//! `tracing_subscriber::EnvFilter`, or the build profile's default.
use vstd::prelude::*;

verus! {

/// The filter directives used by a development build when no usable override is given.
pub const DEVELOPMENT_FILTER: &'static str = "debug";

/// The filter directives used by a release build when no usable override is given.
pub const RELEASE_FILTER: &'static str = "info";

/// Whether `EnvFilter` accepts `s` as a list of filter directives.
pub uninterp spec fn env_filter_accepts(s: Seq<char>) -> bool;

/// An ASCII byte that is not whitespace: a directive that starts with one is
/// not trimmed at its start.
pub open spec fn ascii_non_space(x: u8) -> bool {
    x < 128 && x != 32 && !(9 <= x && x <= 13)
}

/// Whether the byte at `j` lies in a comma-separated directive that starts
/// with whitespace or a non-ASCII character.
pub open spec fn in_trimmed_directive(b: Seq<u8>, j: int) -> bool
    decreases j,
{
    if j < 0 || j >= b.len() || b[j] == 44 {
        false
    } else if j == 0 || b[j - 1] == 44 {
        !ascii_non_space(b[j])
    } else {
        in_trimmed_directive(b, j - 1)
    }
}

/// Directives that the parser of `EnvFilter` reads without panicking. It walks
/// the indices of each trimmed directive and slices the untrimmed one with
/// them, which stays on character boundaries where the directive is not
/// trimmed at its start or is all ASCII.
pub open spec fn parse_safe(s: Seq<char>) -> bool {
    bytes_parse_safe(vstd::utf8::encode_utf8(s))
}

/// Every byte of a directive that is trimmed at its start is ASCII.
pub open spec fn bytes_parse_safe(b: Seq<u8>) -> bool {
    forall|j: int| 0 <= j < b.len() && #[trigger] in_trimmed_directive(b, j) ==> b[j] < 128
}

/// The default directives of a build profile.
pub open spec fn default_filter(development: bool) -> Seq<char> {
    if development {
        "debug"@
    } else {
        "info"@
    }
}

/// The override's characters, where there is one.
pub open spec fn override_view(filter_override: Option<String>) -> Option<Seq<char>> {
    match filter_override {
        Some(s) => Some(s@),
        None => None,
    }
}

/// Whether the override is used: present, safe to parse, and accepted by `EnvFilter`.
pub open spec fn override_used(filter_override: Option<Seq<char>>) -> bool {
    match filter_override {
        Some(s) => parse_safe(s) && env_filter_accepts(s),
        None => false,
    }
}

/// The directives in force for an override (absent, or present and either
/// accepted or not) and a build profile.
pub open spec fn chosen_filter(filter_override: Option<Seq<char>>, accepted: bool, development: bool) -> Seq<char> {
    match filter_override {
        Some(s) => if accepted {
            s
        } else {
            default_filter(development)
        },
        None => default_filter(development),
    }
}

/// The directives in force, where the grammar of `EnvFilter` decides acceptance
/// of an override that can be parsed safely; any other override is rejected.
pub open spec fn resolved_filter(filter_override: Option<Seq<char>>, development: bool) -> Seq<char> {
    match filter_override {
        Some(s) => chosen_filter(filter_override, parse_safe(s) && env_filter_accepts(s), development),
        None => default_filter(development),
    }
}

/// A resolved filter: directives in the grammar of `EnvFilter`.
pub struct FilterSpec {
    pub directives: String,
}

impl View for FilterSpec {
    type V = Seq<char>;

    open spec fn view(&self) -> Seq<char> {
        self.directives@
    }
}

impl FilterSpec {
    /// The directives, as a string.
    pub fn as_str(&self) -> (r: &str)
        ensures
            r@ == self@,
    {
        self.directives.as_str()
    }
}

#[verifier::external_type_specification]
#[verifier::external_body]
pub struct ExEnvFilter(tracing_subscriber::EnvFilter);

#[verifier::external_type_specification]
#[verifier::external_body]
pub struct ExParseError(tracing_subscriber::filter::ParseError);

/// An `EnvFilter` together with the directives that it was built from, and
/// whether it was built with a default that enables errors.
pub struct Filter {
    layer: tracing_subscriber::EnvFilter,
    directives: Ghost<Seq<char>>,
    error_default: Ghost<bool>,
}

impl Filter {
    /// The directives that the filter was built from.
    pub closed spec fn directives(&self) -> Seq<char> {
        self.directives@
    }

    /// Whether the filter enables errors where no directive applies.
    pub closed spec fn error_default(&self) -> bool {
        self.error_default@
    }

    /// The `EnvFilter` itself.
    pub(crate) fn into_layer(self) -> tracing_subscriber::EnvFilter {
        self.layer
    }
}

/// Relies on `tracing_subscriber::EnvFilter::try_new`: the filter of exactly
/// these directives, with no default, or an error where one of them does not
/// parse. Its source returns `Ok` for the empty string.
#[verifier::external_body]
fn parse_directives(s: &str) -> (r: Result<Filter, tracing_subscriber::filter::ParseError>)
    requires
        parse_safe(s@),
    ensures
        r is Ok == env_filter_accepts(s@),
        s@.len() == 0 ==> r is Ok,
        r matches Ok(f) ==> f.directives() == s@ && !f.error_default(),
{
    tracing_subscriber::EnvFilter::try_new(s).map(|layer| Filter {
        layer,
        directives: Ghost(s@),
        error_default: Ghost(false),
    })
}

/// Relies on `tracing_subscriber::EnvFilter::new`: the filter of these
/// directives, with a default that enables errors; it does not fail.
#[verifier::external_body]
fn env_filter(directives: &str) -> (r: Filter)
    requires
        parse_safe(directives@),
    ensures
        r.directives() == directives@,
        r.error_default(),
{
    Filter {
        layer: tracing_subscriber::EnvFilter::new(directives),
        directives: Ghost(directives@),
        error_default: Ghost(true),
    }
}

/// ASCII directives can always be handed to the parser.
proof fn lemma_ascii_parse_safe(s: Seq<char>)
    requires
        vstd::utf8::is_ascii_chars(s),
    ensures
        parse_safe(s),
{
    vstd::utf8::is_ascii_chars_encode_utf8(s);
    vstd::utf8::is_ascii_chars_nat_bound(s);
    let b = vstd::utf8::encode_utf8(s);
    assert forall|j: int| 0 <= j < b.len() && #[trigger] in_trimmed_directive(b, j) implies b[j] < 128 by {
        assert(s[j] as u8 == b[j]);
        assert((s[j] as nat) < 128);
    }
}

/// Whether the override can be handed to the parser.
pub fn directives_parse_safe(s: &str) -> (r: bool)
    ensures
        r == parse_safe(s@),
{
    let b = s.as_bytes();
    let ghost bytes = vstd::utf8::encode_utf8(s@);
    let mut trimmed: bool = false;
    let mut i: usize = 0;
    while i < b.len()
        invariant
            0 <= i <= b@.len(),
            b@ == bytes,
            bytes == vstd::utf8::encode_utf8(s@),
            i > 0 ==> trimmed == in_trimmed_directive(bytes, i - 1),
            forall|j: int| 0 <= j < i && #[trigger] in_trimmed_directive(bytes, j) ==> bytes[j] < 128,
        decreases b@.len() - i,
    {
        let x = b[i];
        if x == 44 {
            trimmed = false;
        } else if i == 0 || b[i - 1] == 44 {
            trimmed = !(x < 128 && x != 32 && !(9 <= x && x <= 13));
        }
        assert(trimmed == in_trimmed_directive(bytes, i as int));
        if trimmed && x >= 128 {
            assert(in_trimmed_directive(bytes, i as int) && !(bytes[i as int] < 128));
            assert(!bytes_parse_safe(bytes));
            return false;
        }
        i = i + 1;
    }
    true
}

/// The default directives of a build profile.
pub fn default_directives(development: bool) -> (r: String)
    ensures
        r@ == default_filter(development),
{
    proof {
        reveal_strlit("debug");
        reveal_strlit("info");
    }
    if development {
        DEVELOPMENT_FILTER.to_owned()
    } else {
        RELEASE_FILTER.to_owned()
    }
}

/// The filter in force, given the override, whether its grammar accepts it
/// (ignored when it is absent), and the build profile. A rejected or absent
/// override falls back to the profile's default; nothing here fails.
pub fn choose_filter(filter_override: Option<String>, accepted: bool, development: bool) -> (r: FilterSpec)
    ensures
        r@ == chosen_filter(
            override_view(filter_override),
            accepted,
            development,
        ),
{
    match filter_override {
        Some(s) => if accepted {
            FilterSpec { directives: s }
        } else {
            FilterSpec { directives: default_directives(development) }
        },
        None => FilterSpec { directives: default_directives(development) },
    }
}

/// The filter in force and the `EnvFilter` that applies it: the override
/// verbatim, parsed without a default, where it can be parsed safely and
/// `EnvFilter` accepts it; otherwise the build profile's default.
pub(crate) fn build_filter(filter_override: Option<String>, development: bool) -> (r: (
    FilterSpec,
    Filter,
))
    ensures
        r.0@ == resolved_filter(override_view(filter_override), development),
        r.1.directives() == r.0@,
        r.1.error_default() == !override_used(override_view(filter_override)),
{
    match filter_override {
        Some(s) => {
            if directives_parse_safe(s.as_str()) {
                match parse_directives(s.as_str()) {
                    Ok(f) => {
                        return (FilterSpec { directives: s }, f);
                    },
                    Err(_) => {},
                }
            }
        },
        None => {},
    }
    let d = default_directives(development);
    proof {
        reveal_strlit("debug");
        reveal_strlit("info");
        assert(vstd::utf8::is_ascii_chars(d@));
        lemma_ascii_parse_safe(d@);
    }
    let f = env_filter(d.as_str());
    (FilterSpec { directives: d }, f)
}

/// The filter in force: the override verbatim where it can be parsed safely
/// and `EnvFilter` accepts it, otherwise the build profile's default.
pub fn resolve_filter(filter_override: Option<String>, development: bool) -> (r: FilterSpec)
    ensures
        r@ == resolved_filter(override_view(filter_override), development),
{
    build_filter(filter_override, development).0
}

/// An absent or rejected override yields exactly the build profile's default.
pub proof fn lemma_filter_fallback(filter_override: Option<Seq<char>>, development: bool)
    requires
        filter_override matches Some(s) ==> !(parse_safe(s) && env_filter_accepts(s)),
    ensures
        resolved_filter(filter_override, development) == default_filter(development),
{
}

/// An override that can be parsed safely and that `EnvFilter` accepts is used
/// verbatim, not the default.
pub proof fn lemma_filter_override(s: Seq<char>, development: bool)
    requires
        parse_safe(s),
        env_filter_accepts(s),
    ensures
        resolved_filter(Some(s), development) == s,
{
}

} // verus!
