//! Domain value types for authority token lifecycle modelling.

use vstd::prelude::*;
use vstd::std_specs::cmp::PartialEqSpecImpl;
use vstd::std_specs::convert::TryFromSpecImpl;

use super::errors::{non_empty, AuthorityLifecycleError, LifecycleErrorView};
use crate::text::is_blank;

verus! {

/// Monotonic timestamp used for lifecycle evaluation boundaries.
#[derive(Clone, Copy, Debug, PartialEq, Eq, PartialOrd, Ord)]
pub struct TokenTimestamp(u64);

impl View for TokenTimestamp {
    type V = nat;

    closed spec fn view(&self) -> nat {
        self.0 as nat
    }
}

impl TokenTimestamp {
    /// Create a timestamp from seconds in the runtime clock domain.
    pub fn new(seconds: u64) -> (timestamp: Self)
        ensures
            timestamp@ == seconds,
    {
        Self(seconds)
    }

    /// Return the wrapped timestamp value.
    pub fn as_u64(&self) -> (seconds: u64)
        ensures
            seconds == self@,
    {
        self.0
    }
}

/// Stable identifier for an authority token.
#[derive(Debug, Eq, PartialOrd, Ord, Hash)]
pub struct AuthorityTokenId(String);

impl PartialEqSpecImpl for AuthorityTokenId {
    open spec fn obeys_eq_spec() -> bool {
        true
    }

    open spec fn eq_spec(&self, other: &Self) -> bool {
        self@ == other@
    }
}

impl PartialEq for AuthorityTokenId {
    /// Two values are equal when they hold the same text.
    fn eq(&self, other: &Self) -> (equal: bool) {
        self.0 == other.0
    }
}

impl Clone for AuthorityTokenId {
    fn clone(&self) -> (copy: Self)
        ensures
            copy@ == self@,
    {
        proof {
            use_type_invariant(self);
        }
        Self(self.0.clone())
    }
}

impl View for AuthorityTokenId {
    type V = Seq<char>;

    closed spec fn view(&self) -> Seq<char> {
        self.0@
    }
}

impl AuthorityTokenId {
    /// The text is never empty nor white space only.
    #[verifier::type_invariant]
    spec fn holds_text(&self) -> bool {
        !is_blank(self.0@)
    }

    /// Return the identifier as a string slice.
    pub fn as_str(&self) -> (text: &str)
        ensures
            text@ == self@,
            !is_blank(self@),
    {
        proof {
            use_type_invariant(self);
        }
        self.0.as_str()
    }
}

impl TryFromSpecImpl<&str> for AuthorityTokenId {
    /// What the conversion yields is stated on `try_from` itself, over the
    /// text of its result; no value is named here.
    open spec fn obeys_try_from_spec() -> bool {
        false
    }

    open spec fn try_from_spec(value: &str) -> Result<Self, AuthorityLifecycleError> {
        arbitrary()
    }
}

impl TryFrom<&str> for AuthorityTokenId {
    type Error = AuthorityLifecycleError;

    fn try_from(value: &str) -> (result: Result<Self, AuthorityLifecycleError>)
        ensures
            match result {
                Ok(id) => !is_blank(value@) && id@ == value@,
                Err(error) => is_blank(value@) && error@ == (LifecycleErrorView::EmptyField {
                    field: "token_id"@,
                }),
            },
    {
        match non_empty(value, "token_id") {
            Ok(_) => Ok(Self(value.to_owned())),
            Err(error) => Err(error),
        }
    }
}

/// Validated issuer identity for minting and delegation provenance.
#[derive(Debug, Eq, PartialOrd, Ord, Hash)]
pub struct AuthorityIssuer(String);

impl PartialEqSpecImpl for AuthorityIssuer {
    open spec fn obeys_eq_spec() -> bool {
        true
    }

    open spec fn eq_spec(&self, other: &Self) -> bool {
        self@ == other@
    }
}

impl PartialEq for AuthorityIssuer {
    /// Two values are equal when they hold the same text.
    fn eq(&self, other: &Self) -> (equal: bool) {
        self.0 == other.0
    }
}

impl Clone for AuthorityIssuer {
    fn clone(&self) -> (copy: Self)
        ensures
            copy@ == self@,
    {
        proof {
            use_type_invariant(self);
        }
        Self(self.0.clone())
    }
}

impl View for AuthorityIssuer {
    type V = Seq<char>;

    closed spec fn view(&self) -> Seq<char> {
        self.0@
    }
}

impl AuthorityIssuer {
    /// The text is never empty nor white space only.
    #[verifier::type_invariant]
    spec fn holds_text(&self) -> bool {
        !is_blank(self.0@)
    }

    /// Return the issuer as a string slice.
    pub fn as_str(&self) -> (text: &str)
        ensures
            text@ == self@,
            !is_blank(self@),
    {
        proof {
            use_type_invariant(self);
        }
        self.0.as_str()
    }
}

impl TryFromSpecImpl<&str> for AuthorityIssuer {
    /// What the conversion yields is stated on `try_from` itself, over the
    /// text of its result; no value is named here.
    open spec fn obeys_try_from_spec() -> bool {
        false
    }

    open spec fn try_from_spec(value: &str) -> Result<Self, AuthorityLifecycleError> {
        arbitrary()
    }
}

impl TryFrom<&str> for AuthorityIssuer {
    type Error = AuthorityLifecycleError;

    fn try_from(value: &str) -> (result: Result<Self, AuthorityLifecycleError>)
        ensures
            match result {
                Ok(issuer) => !is_blank(value@) && issuer@ == value@,
                Err(error) => is_blank(value@) && error@ == (LifecycleErrorView::EmptyField {
                    field: "issuer"@,
                }),
            },
    {
        match non_empty(value, "issuer") {
            Ok(_) => Ok(Self(value.to_owned())),
            Err(error) => Err(error),
        }
    }
}

/// Subject for whom authority is granted.
#[derive(Debug, Eq, PartialOrd, Ord, Hash)]
pub struct AuthoritySubject(String);

impl PartialEqSpecImpl for AuthoritySubject {
    open spec fn obeys_eq_spec() -> bool {
        true
    }

    open spec fn eq_spec(&self, other: &Self) -> bool {
        self@ == other@
    }
}

impl PartialEq for AuthoritySubject {
    /// Two values are equal when they hold the same text.
    fn eq(&self, other: &Self) -> (equal: bool) {
        self.0 == other.0
    }
}

impl Clone for AuthoritySubject {
    fn clone(&self) -> (copy: Self)
        ensures
            copy@ == self@,
    {
        proof {
            use_type_invariant(self);
        }
        Self(self.0.clone())
    }
}

impl View for AuthoritySubject {
    type V = Seq<char>;

    closed spec fn view(&self) -> Seq<char> {
        self.0@
    }
}

impl AuthoritySubject {
    /// The text is never empty nor white space only.
    #[verifier::type_invariant]
    spec fn holds_text(&self) -> bool {
        !is_blank(self.0@)
    }

    /// Return the subject as a string slice.
    pub fn as_str(&self) -> (text: &str)
        ensures
            text@ == self@,
            !is_blank(self@),
    {
        proof {
            use_type_invariant(self);
        }
        self.0.as_str()
    }
}

impl TryFromSpecImpl<&str> for AuthoritySubject {
    /// What the conversion yields is stated on `try_from` itself, over the
    /// text of its result; no value is named here.
    open spec fn obeys_try_from_spec() -> bool {
        false
    }

    open spec fn try_from_spec(value: &str) -> Result<Self, AuthorityLifecycleError> {
        arbitrary()
    }
}

impl TryFrom<&str> for AuthoritySubject {
    type Error = AuthorityLifecycleError;

    fn try_from(value: &str) -> (result: Result<Self, AuthorityLifecycleError>)
        ensures
            match result {
                Ok(subject) => !is_blank(value@) && subject@ == value@,
                Err(error) => is_blank(value@) && error@ == (LifecycleErrorView::EmptyField {
                    field: "subject"@,
                }),
            },
    {
        match non_empty(value, "subject") {
            Ok(_) => Ok(Self(value.to_owned())),
            Err(error) => Err(error),
        }
    }
}

/// Capability encoded by an authority token.
#[derive(Debug, Eq, PartialOrd, Ord, Hash)]
pub struct AuthorityCapability(String);

impl PartialEqSpecImpl for AuthorityCapability {
    open spec fn obeys_eq_spec() -> bool {
        true
    }

    open spec fn eq_spec(&self, other: &Self) -> bool {
        self@ == other@
    }
}

impl PartialEq for AuthorityCapability {
    /// Two values are equal when they hold the same text.
    fn eq(&self, other: &Self) -> (equal: bool) {
        self.0 == other.0
    }
}

impl Clone for AuthorityCapability {
    fn clone(&self) -> (copy: Self)
        ensures
            copy@ == self@,
    {
        proof {
            use_type_invariant(self);
        }
        Self(self.0.clone())
    }
}

impl View for AuthorityCapability {
    type V = Seq<char>;

    closed spec fn view(&self) -> Seq<char> {
        self.0@
    }
}

impl AuthorityCapability {
    /// The text is never empty nor white space only.
    #[verifier::type_invariant]
    spec fn holds_text(&self) -> bool {
        !is_blank(self.0@)
    }

    /// Return the capability as a string slice.
    pub fn as_str(&self) -> (text: &str)
        ensures
            text@ == self@,
            !is_blank(self@),
    {
        proof {
            use_type_invariant(self);
        }
        self.0.as_str()
    }
}

impl TryFromSpecImpl<&str> for AuthorityCapability {
    /// What the conversion yields is stated on `try_from` itself, over the
    /// text of its result; no value is named here.
    open spec fn obeys_try_from_spec() -> bool {
        false
    }

    open spec fn try_from_spec(value: &str) -> Result<Self, AuthorityLifecycleError> {
        arbitrary()
    }
}

impl TryFrom<&str> for AuthorityCapability {
    type Error = AuthorityLifecycleError;

    fn try_from(value: &str) -> (result: Result<Self, AuthorityLifecycleError>)
        ensures
            match result {
                Ok(capability) => !is_blank(value@) && capability@ == value@,
                Err(error) => is_blank(value@) && error@ == (LifecycleErrorView::EmptyField {
                    field: "capability"@,
                }),
            },
    {
        match non_empty(value, "capability") {
            Ok(_) => Ok(Self(value.to_owned())),
            Err(error) => Err(error),
        }
    }
}

/// Scope entry that an authority token may permit.
#[derive(Debug, Eq, PartialOrd, Ord, Hash)]
pub struct ScopeResource(String);

impl PartialEqSpecImpl for ScopeResource {
    open spec fn obeys_eq_spec() -> bool {
        true
    }

    open spec fn eq_spec(&self, other: &Self) -> bool {
        self@ == other@
    }
}

impl PartialEq for ScopeResource {
    /// Two values are equal when they hold the same text.
    fn eq(&self, other: &Self) -> (equal: bool) {
        self.0 == other.0
    }
}

impl Clone for ScopeResource {
    fn clone(&self) -> (copy: Self)
        ensures
            copy@ == self@,
    {
        proof {
            use_type_invariant(self);
        }
        Self(self.0.clone())
    }
}

impl View for ScopeResource {
    type V = Seq<char>;

    closed spec fn view(&self) -> Seq<char> {
        self.0@
    }
}

impl ScopeResource {
    /// The text is never empty nor white space only.
    #[verifier::type_invariant]
    spec fn holds_text(&self) -> bool {
        !is_blank(self.0@)
    }

    /// Return the scope resource as a string slice.
    pub fn as_str(&self) -> (text: &str)
        ensures
            text@ == self@,
            !is_blank(self@),
    {
        proof {
            use_type_invariant(self);
        }
        self.0.as_str()
    }
}

impl TryFromSpecImpl<&str> for ScopeResource {
    /// What the conversion yields is stated on `try_from` itself, over the
    /// text of its result; no value is named here.
    open spec fn obeys_try_from_spec() -> bool {
        false
    }

    open spec fn try_from_spec(value: &str) -> Result<Self, AuthorityLifecycleError> {
        arbitrary()
    }
}

impl TryFrom<&str> for ScopeResource {
    type Error = AuthorityLifecycleError;

    fn try_from(value: &str) -> (result: Result<Self, AuthorityLifecycleError>)
        ensures
            match result {
                Ok(resource) => !is_blank(value@) && resource@ == value@,
                Err(error) => is_blank(value@) && error@ == (LifecycleErrorView::EmptyField {
                    field: "scope_resource"@,
                }),
            },
    {
        match non_empty(value, "scope_resource") {
            Ok(_) => Ok(Self(value.to_owned())),
            Err(error) => Err(error),
        }
    }
}

/// Invalidity reason recorded for stripped authority tokens.
#[derive(Clone, Copy, Debug, PartialEq, Eq, Structural)]
pub enum InvalidAuthorityReason {
    /// Token was revoked in the revocation index.
    Revoked,
    /// Token expired at evaluation time.
    Expired,
    /// Token has not yet reached its issuance time.
    PreIssuance,
}

impl InvalidAuthorityReason {
    /// Return the stable lower-case label of the reason.
    pub fn as_str(&self) -> (label: &'static str)
        ensures
            label@ == match *self {
                InvalidAuthorityReason::Revoked => "revoked"@,
                InvalidAuthorityReason::Expired => "expired"@,
                InvalidAuthorityReason::PreIssuance => "pre-issuance"@,
            },
    {
        match self {
            InvalidAuthorityReason::Revoked => "revoked",
            InvalidAuthorityReason::Expired => "expired",
            InvalidAuthorityReason::PreIssuance => "pre-issuance",
        }
    }
}

/// The texts of a sequence of scope resources, in order.
pub open spec fn resource_texts(resources: Seq<ScopeResource>) -> Seq<Seq<char>> {
    resources.map_values(|resource: ScopeResource| resource@)
}

/// Set of scope resources permitted by a token.
///
/// The resources are kept in first-insertion order with no text occurring
/// twice; only the set of texts is observable.
#[derive(Debug, Eq)]
pub struct AuthorityScope {
    resources: Vec<ScopeResource>,
}

impl View for AuthorityScope {
    type V = Set<Seq<char>>;

    closed spec fn view(&self) -> Set<Seq<char>> {
        resource_texts(self.resources@).to_set()
    }
}

impl Clone for AuthorityScope {
    fn clone(&self) -> (copy: Self)
        ensures
            copy@ == self@,
    {
        proof {
            use_type_invariant(self);
        }
        let mut resources: Vec<ScopeResource> = Vec::with_capacity(self.resources.len());
        for i in 0..self.resources.len()
            invariant
                resource_texts(resources@) == resource_texts(self.resources@.take(i as int)),
        {
            let ghost before = resource_texts(resources@);
            resources.push(self.resources[i].clone());
            assert(resource_texts(resources@) =~= before.push(self.resources[i as int]@));
            assert(resource_texts(self.resources@.take(i + 1)) =~= before.push(
                self.resources[i as int]@,
            ));
        }
        assert(self.resources@.take(self.resources.len() as int) =~= self.resources@);
        Self { resources }
    }
}

impl PartialEqSpecImpl for AuthorityScope {
    open spec fn obeys_eq_spec() -> bool {
        true
    }

    open spec fn eq_spec(&self, other: &Self) -> bool {
        self@ == other@
    }
}

impl PartialEq for AuthorityScope {
    /// Two scopes are equal when they permit the same resources.
    fn eq(&self, other: &Self) -> (equal: bool) {
        let equal = self.covers(other) && other.covers(self);
        assert(equal == (self@ =~= other@));
        equal
    }
}

impl AuthorityScope {
    /// A scope permits at least one resource, and holds none twice.
    #[verifier::type_invariant]
    spec fn well_formed(&self) -> bool {
        &&& self.resources.len() > 0
        &&& resource_texts(self.resources@).no_duplicates()
    }

    /// Build a scope from resources, rejecting empty sets.
    pub fn new(resources: Vec<ScopeResource>) -> (result: Result<Self, AuthorityLifecycleError>)
        ensures
            match result {
                Ok(scope) => resources.len() > 0 && scope@ == resource_texts(
                    resources@,
                ).to_set(),
                Err(error) => resources.len() == 0 && error@ == (LifecycleErrorView::EmptyField {
                    field: "scope"@,
                }),
            },
    {
        if resources.len() == 0 {
            return Err(AuthorityLifecycleError::EmptyField { field: "scope" });
        }
        let mut kept: Vec<ScopeResource> = Vec::new();
        for i in 0..resources.len()
            invariant
                resource_texts(kept@).no_duplicates(),
                resource_texts(kept@).to_set() == resource_texts(
                    resources@.take(i as int),
                ).to_set(),
                i > 0 ==> kept.len() > 0,
        {
            let ghost before = resource_texts(kept@);
            let ghost seen = resource_texts(resources@.take(i as int));
            let ghost text = resources[i as int]@;
            assert(resource_texts(resources@.take(i + 1)) =~= seen.push(text));
            if !holds_text(&kept, &resources[i]) {
                kept.push(resources[i].clone());
                assert(resource_texts(kept@) =~= before.push(text));
                assert(before.push(text).to_set() =~= seen.push(text).to_set()) by {
                    lemma_push_to_set(before, text);
                    lemma_push_to_set(seen, text);
                }
            } else {
                assert(before.to_set() =~= seen.push(text).to_set()) by {
                    lemma_push_to_set(seen, text);
                }
            }
        }
        assert(resources@.take(resources.len() as int) =~= resources@);
        Ok(Self { resources: kept })
    }

    /// Return whether this scope strictly narrows another scope: every
    /// resource is present in `parent`, and the two sets differ.
    pub fn is_strict_subset_of(&self, parent: &Self) -> (strict: bool)
        ensures
            strict == (self@.subset_of(parent@) && self@ != parent@),
    {
        let strict = parent.covers(self) && !self.covers(parent);
        assert(self@.subset_of(parent@) && parent@.subset_of(self@) ==> self@ =~= parent@);
        strict
    }

    /// Return whether the scope includes a specific resource.
    pub fn contains(&self, resource: &ScopeResource) -> (present: bool)
        ensures
            present == self@.contains(resource@),
    {
        holds_text(&self.resources, resource)
    }

    /// Return whether every resource of `other` is present in this scope.
    fn covers(&self, other: &Self) -> (covered: bool)
        ensures
            covered == other@.subset_of(self@),
    {
        for i in 0..other.resources.len()
            invariant
                forall|j: int|
                    0 <= j < i ==> self@.contains(#[trigger] resource_texts(other.resources@)[j]),
        {
            if !holds_text(&self.resources, &other.resources[i]) {
                assert(resource_texts(other.resources@)[i as int] == other.resources[i as int]@);
                assert(resource_texts(other.resources@).contains(other.resources[i as int]@));
                return false;
            }
            assert(resource_texts(other.resources@)[i as int] == other.resources[i as int]@);
        }
        true
    }
}

/// The texts of `items.push(text)` are those of `items` together with `text`.
proof fn lemma_push_to_set(items: Seq<Seq<char>>, text: Seq<char>)
    ensures
        items.push(text).to_set() == items.to_set().insert(text),
{
    let pushed = items.push(text);
    assert forall|t: Seq<char>| pushed.to_set().contains(t) <==> items.to_set().insert(
        text,
    ).contains(t) by {
        if pushed.contains(t) {
            let k = choose|k: int| 0 <= k < pushed.len() && pushed[k] == t;
            if k < items.len() {
                assert(items[k] == t);
            }
        }
        if items.contains(t) {
            let k = choose|k: int| 0 <= k < items.len() && items[k] == t;
            assert(pushed[k] == t);
        }
        assert(pushed[items.len() as int] == text);
    }
    assert(pushed.to_set() =~= items.to_set().insert(text));
}

/// Return whether one of `resources` carries the text of `resource`.
fn holds_text(resources: &Vec<ScopeResource>, resource: &ScopeResource) -> (found: bool)
    ensures
        found == resource_texts(resources@).to_set().contains(resource@),
{
    for i in 0..resources.len()
        invariant
            forall|j: int| 0 <= j < i ==> #[trigger] resource_texts(resources@)[j] != resource@,
    {
        if resources[i] == *resource {
            assert(resource_texts(resources@)[i as int] == resource@);
            return true;
        }
        assert(resource_texts(resources@)[i as int] == resources[i as int]@);
    }
    false
}

/// Trust class of the minting issuer.
#[derive(Clone, Copy, Debug, PartialEq, Eq, Structural)]
pub enum IssuerTrust {
    /// Trusted host-side minting authority.
    HostTrusted,
    /// Untrusted minting source.
    Untrusted,
}

/// Parameters for minting an authority token.
#[derive(Clone, Debug, PartialEq, Eq)]
pub struct MintRequest {
    /// New token identifier.
    pub token_id: AuthorityTokenId,
    /// Minting issuer identity for audit provenance.
    pub issuer: AuthorityIssuer,
    /// Minting issuer trust class.
    pub issuer_trust: IssuerTrust,
    /// Subject receiving authority.
    pub subject: AuthoritySubject,
    /// Capability encoded into the token.
    pub capability: AuthorityCapability,
    /// Scope resources the token permits.
    pub scope: AuthorityScope,
    /// Token issue time.
    pub issued_at: TokenTimestamp,
    /// Token expiry time.
    pub expires_at: TokenTimestamp,
}

/// Mathematical model of a [`MintRequest`].
pub ghost struct MintRequestView {
    pub token_id: Seq<char>,
    pub issuer: Seq<char>,
    pub issuer_trust: IssuerTrust,
    pub subject: Seq<char>,
    pub capability: Seq<char>,
    pub scope: Set<Seq<char>>,
    pub issued_at: nat,
    pub expires_at: nat,
}

impl View for MintRequest {
    type V = MintRequestView;

    open spec fn view(&self) -> MintRequestView {
        MintRequestView {
            token_id: self.token_id@,
            issuer: self.issuer@,
            issuer_trust: self.issuer_trust,
            subject: self.subject@,
            capability: self.capability@,
            scope: self.scope@,
            issued_at: self.issued_at@,
            expires_at: self.expires_at@,
        }
    }
}

/// Parameters for delegating an existing authority token.
#[derive(Clone, Debug, PartialEq, Eq)]
pub struct DelegationRequest {
    /// New delegated token identifier.
    pub token_id: AuthorityTokenId,
    /// Delegating issuer identity for lineage.
    pub delegated_by: AuthorityIssuer,
    /// Delegated subject.
    pub subject: AuthoritySubject,
    /// Delegated scope.
    pub scope: AuthorityScope,
    /// Delegation time.
    pub delegated_at: TokenTimestamp,
    /// Delegated token expiry.
    pub expires_at: TokenTimestamp,
}

/// Mathematical model of a [`DelegationRequest`].
pub ghost struct DelegationRequestView {
    pub token_id: Seq<char>,
    pub delegated_by: Seq<char>,
    pub subject: Seq<char>,
    pub scope: Set<Seq<char>>,
    pub delegated_at: nat,
    pub expires_at: nat,
}

impl View for DelegationRequest {
    type V = DelegationRequestView;

    open spec fn view(&self) -> DelegationRequestView {
        DelegationRequestView {
            token_id: self.token_id@,
            delegated_by: self.delegated_by@,
            subject: self.subject@,
            scope: self.scope@,
            delegated_at: self.delegated_at@,
            expires_at: self.expires_at@,
        }
    }
}

} // verus!
