//! Claim sets of the service's JSON Web Tokens: building, signing, expiry policy and
//! verification against a set of known keys.

use crate::compact::{
    header_key_id, json_members_of, json_object_bytes, json_object_entries, member_lookup, members_view,
    now_timestamp, opt_string_view, payload_of, rs256_verifies, sign_payload, unverified_key_id, unverified_payload,
    verified_payload, writable, ClaimValue, JsonMember,
};
use crate::credentials::Credentials;
use crate::errors::{FirebaseError, VerificationFailure};
use vstd::prelude::*;

verus! {

pub const JWT_AUDIENCE_FIRESTORE: &'static str = "https://firestore.googleapis.com/google.firestore.v1.Firestore";

pub const JWT_AUDIENCE_IDENTITY: &'static str =
    "https://identitytoolkit.googleapis.com/google.identity.identitytoolkit.v1.IdentityToolkit";

/// Earliest Unix time, in seconds, that a token timestamp can carry.
pub const MIN_TIMESTAMP: i64 = -8334601315200;

/// Latest Unix time, in seconds, that a token timestamp can carry.
pub const MAX_TIMESTAMP: i64 = 8210266876799;

pub open spec fn valid_timestamp(t: int) -> bool {
    MIN_TIMESTAMP <= t <= MAX_TIMESTAMP
}

/// The private claims: scope, client id and user id.
#[derive(Debug)]
pub struct JwtOAuthPrivateClaims {
    pub scope: Option<String>,
    pub client_id: Option<String>,
    pub uid: Option<String>,
}

/// The `aud` claim: one audience or several.
#[derive(Debug)]
pub enum Audience {
    Single(String),
    Multiple(Vec<String>),
}

/// The registered claims; timestamps are Unix times in seconds.
#[derive(Debug)]
pub struct StandardClaims {
    pub issuer: Option<String>,
    pub subject: Option<String>,
    pub audience: Option<Audience>,
    pub expiry: Option<i64>,
    pub not_before: Option<i64>,
    pub issued_at: Option<i64>,
    pub id: Option<String>,
}

/// Registered and private claims of one token.
#[derive(Debug)]
pub struct ClaimSet {
    pub registered: StandardClaims,
    pub private: JwtOAuthPrivateClaims,
}

/// An unsigned token: the key id of its header and its claims.
#[derive(Debug)]
pub struct AuthClaimsJwt {
    pub key_id: String,
    pub claims: ClaimSet,
}

/// What a successful verification hands back.
#[derive(Debug)]
pub struct TokenValidationResult {
    pub claims: JwtOAuthPrivateClaims,
    pub audience: String,
    pub subject: String,
}

pub open spec fn opt_timestamp_valid(t: Option<i64>) -> bool {
    t matches Some(v) ==> valid_timestamp(v as int)
}

impl StandardClaims {
    /// Every timestamp that is present can be carried by a token.
    pub open spec fn wf(&self) -> bool {
        &&& opt_timestamp_valid(self.expiry)
        &&& opt_timestamp_valid(self.not_before)
        &&& opt_timestamp_valid(self.issued_at)
    }
}

impl AuthClaimsJwt {
    pub open spec fn wf(&self) -> bool {
        self.claims.registered.wf()
    }
}

pub open spec fn views(s: Seq<String>) -> Seq<Seq<char>> {
    s.map_values(|x: String| x@)
}

/// The parts separated by single spaces.
pub open spec fn joined(parts: Seq<Seq<char>>) -> Seq<char>
    decreases parts.len(),
{
    if parts.len() == 0 {
        Seq::empty()
    } else if parts.len() == 1 {
        parts[0]
    } else {
        joined(parts.drop_last()) + seq![' '] + parts.last()
    }
}

/// Joins scopes with a single space between neighbours.
pub fn join_scopes(scopes: &Vec<String>) -> (r: String)
    ensures
        r@ == joined(views(scopes@)),
{
    let mut r = String::new();
    let mut i: usize = 0;
    while i < scopes.len()
        invariant
            i <= scopes.len(),
            r@ == joined(views(scopes@).subrange(0, i as int)),
        decreases scopes.len() - i,
    {
        let ghost before = r@;
        proof {
            reveal_strlit(" ");
        }
        if i > 0 {
            r.append(" ");
        }
        r.append(scopes[i].as_str());
        proof {
            let vs = views(scopes@);
            let next = vs.subrange(0, i + 1);
            assert(next.drop_last() =~= vs.subrange(0, i as int));
            if i == 0 {
                assert(r@ =~= next[0]);
            } else {
                assert(r@ =~= before + seq![' '] + next.last());
            }
        }
        i = i + 1;
    }
    assert(views(scopes@).subrange(0, scopes.len() as int) =~= views(scopes@));
    r
}

/// The pieces of `s` between spaces, empty pieces included.
pub open spec fn split_spaces(s: Seq<char>) -> Seq<Seq<char>>
    decreases s.len(),
{
    if s.len() == 0 {
        seq![Seq::<char>::empty()]
    } else {
        let p = split_spaces(s.drop_last());
        if s.last() == ' ' {
            p.push(Seq::<char>::empty())
        } else {
            p.update(p.len() - 1, p.last().push(s.last()))
        }
    }
}

pub proof fn lemma_split_nonempty(s: Seq<char>)
    ensures
        split_spaces(s).len() >= 1,
    decreases s.len(),
{
    if s.len() > 0 {
        lemma_split_nonempty(s.drop_last());
    }
}

fn contains_string(v: &Vec<String>, s: &String) -> (r: bool)
    ensures
        r == views(v@).contains(s@),
{
    let mut i: usize = 0;
    while i < v.len()
        invariant
            i <= v.len(),
            forall|j: int| 0 <= j < i ==> v@[j]@ != s@,
        decreases v.len() - i,
    {
        if v[i] == *s {
            assert(views(v@)[i as int] == s@);
            return true;
        }
        i = i + 1;
    }
    proof {
        if views(v@).contains(s@) {
            let j = choose|j: int| 0 <= j < views(v@).len() && views(v@)[j] == s@;
            assert(v@[j]@ != s@);
        }
    }
    false
}

proof fn lemma_to_set_last(p: Seq<Seq<char>>)
    requires
        p.len() >= 1,
    ensures
        p.to_set() == p.drop_last().to_set().insert(p.last()),
{
    assert forall|x: Seq<char>| p.to_set().contains(x) <==> p.drop_last().to_set().insert(p.last()).contains(x) by {
        if p.contains(x) {
            let j = choose|j: int| 0 <= j < p.len() && p[j] == x;
            if j < p.len() - 1 {
                assert(p.drop_last()[j] == x);
            }
        }
        if p.drop_last().contains(x) {
            let j = choose|j: int| 0 <= j < p.len() - 1 && p.drop_last()[j] == x;
            assert(p[j] == x);
        }
        if x == p.last() {
            assert(p[p.len() - 1] == x);
        }
    }
    assert(p.to_set() =~= p.drop_last().to_set().insert(p.last()));
}

/// The distinct space-separated pieces of `s`, in order of first appearance.
pub fn split_scope_set(s: &str) -> (r: Vec<String>)
    ensures
        views(r@).to_set() == split_spaces(s@).to_set(),
        views(r@).no_duplicates(),
{
    let n = s.unicode_len();
    let mut r: Vec<String> = Vec::new();
    let mut start: usize = 0;
    let mut i: usize = 0;
    proof {
        assert(s@.subrange(0, 0) =~= Seq::<char>::empty());
        assert(split_spaces(s@.subrange(0, 0)).drop_last() =~= Seq::<Seq<char>>::empty());
        assert(s@.subrange(0, 0) =~= s@.subrange(0, 0));
        assert(split_spaces(s@.subrange(0, 0)).last() =~= s@.subrange(0, 0));
        assert(views(r@) =~= Seq::<Seq<char>>::empty());
        assert(views(r@).to_set() =~= Set::<Seq<char>>::empty());
        assert(Seq::<Seq<char>>::empty().to_set() =~= Set::<Seq<char>>::empty());
    }
    while i < n
        invariant
            n == s@.len(),
            start <= i <= n,
            views(r@).no_duplicates(),
            split_spaces(s@.subrange(0, i as int)).len() >= 1,
            split_spaces(s@.subrange(0, i as int)).last() == s@.subrange(start as int, i as int),
            views(r@).to_set() == split_spaces(s@.subrange(0, i as int)).drop_last().to_set(),
        decreases n - i,
    {
        let c = s.get_char(i);
        let ghost pre = s@.subrange(0, i as int);
        let ghost p = split_spaces(pre);
        proof {
            let nxt = s@.subrange(0, i + 1);
            assert(nxt.drop_last() =~= pre);
            assert(nxt.last() == c);
            lemma_to_set_last(p);
        }
        if c == ' ' {
            let piece = String::from_str(s.substring_char(start, i));
            let ghost old_r = views(r@);
            if !contains_string(&r, &piece) {
                r.push(piece);
                assert(views(r@) =~= old_r.push(piece@));
                assert(views(r@).drop_last() =~= old_r);
                proof {
                    lemma_to_set_last(views(r@));
                }
            } else {
                assert(old_r.to_set().insert(piece@) =~= old_r.to_set());
            }
            proof {
                let q = p.push(Seq::<char>::empty());
                assert(split_spaces(s@.subrange(0, i + 1)) == q);
                assert(q.drop_last() =~= p);
                assert(s@.subrange(i + 1, i + 1) =~= Seq::<char>::empty());
            }
            start = i + 1;
        } else {
            proof {
                let cur = s@.subrange(start as int, i as int);
                let q = p.update(p.len() - 1, p.last().push(c));
                assert(split_spaces(s@.subrange(0, i + 1)) == q);
                assert(s@.subrange(start as int, i + 1) =~= cur.push(c));
                assert(q.drop_last() =~= p.drop_last());
            }
        }
        i = i + 1;
    }
    let piece = String::from_str(s.substring_char(start, n));
    let ghost old_r = views(r@);
    proof {
        assert(s@.subrange(0, n as int) =~= s@);
        lemma_to_set_last(split_spaces(s@));
    }
    if !contains_string(&r, &piece) {
        r.push(piece);
        assert(views(r@) =~= old_r.push(piece@));
        assert(views(r@).drop_last() =~= old_r);
        proof {
            lemma_to_set_last(views(r@));
        }
    } else {
        assert(old_r.to_set().insert(piece@) =~= old_r.to_set());
    }
    r
}

impl TokenValidationResult {
    /// The distinct space-separated scopes of the token; none when it carries no scope.
    pub fn get_scopes(&self) -> (r: Vec<String>)
        ensures
            self.claims.scope is None ==> r@.len() == 0,
            self.claims.scope matches Some(s) ==> views(r@).to_set() == split_spaces(s@).to_set(),
            views(r@).no_duplicates(),
    {
        match &self.claims.scope {
            Some(s) => split_scope_set(s.as_str()),
            None => {
                let r: Vec<String> = Vec::new();
                assert(views(r@) =~= Seq::<Seq<char>>::empty());
                r
            },
        }
    }
}

/// The private scope claim built from an optional scope list.
pub open spec fn scope_claim(scope: Option<Seq<Seq<char>>>, c: Option<String>) -> bool {
    match scope {
        None => c is None,
        Some(parts) => c matches Some(s) && s@ == joined(parts),
    }
}

/// `j` is the unsigned token built at time `now` for these arguments: issuer and subject
/// are the account email, the audience is the single given value, it is issued at `now` and
/// expires `duration` seconds later.
pub open spec fn built_claims(
    j: AuthClaimsJwt,
    credentials: Credentials,
    scope: Option<Seq<Seq<char>>>,
    duration: int,
    client_id: Option<String>,
    user_id: Option<String>,
    audience: Seq<char>,
    now: int,
) -> bool {
    let r = j.claims.registered;
    &&& j.key_id == credentials.private_key_id
    &&& r.issuer == Some(credentials.client_email)
    &&& r.subject == Some(credentials.client_email)
    &&& r.audience matches Some(Audience::Single(a)) && a@ == audience
    &&& r.issued_at matches Some(t) && t == now
    &&& r.expiry matches Some(t) && t == now + duration
    &&& r.not_before is None
    &&& r.id is None
    &&& scope_claim(scope, j.claims.private.scope)
    &&& j.claims.private.client_id == client_id
    &&& j.claims.private.uid == user_id
}

pub open spec fn opt_views(scope: Option<&Vec<String>>) -> Option<Seq<Seq<char>>> {
    match scope {
        Some(v) => Some(views(v@)),
        None => None,
    }
}

/// Builds the unsigned token issued at `now` and valid for `duration_secs` seconds.
pub fn create_jwt_at(
    credentials: &Credentials,
    scope: Option<&Vec<String>>,
    duration_secs: i64,
    client_id: Option<String>,
    user_id: Option<String>,
    audience: &str,
    now: i64,
) -> (r: Result<AuthClaimsJwt, FirebaseError>)
    ensures
        r is Ok <==> valid_timestamp(now as int) && valid_timestamp(now + duration_secs),
        r matches Err(e) ==> e is TimestampRange,
        r matches Ok(j) ==> j.wf() && built_claims(j, *credentials, opt_views(scope), duration_secs as int,
            client_id, user_id, audience@, now as int),
{
    if now < MIN_TIMESTAMP || now > MAX_TIMESTAMP || duration_secs < MIN_TIMESTAMP - now || duration_secs
        > MAX_TIMESTAMP - now {
        return Err(FirebaseError::TimestampRange);
    }
    let expiry = now + duration_secs;
    let scope = match scope {
        Some(v) => Some(join_scopes(v)),
        None => None,
    };
    Ok(AuthClaimsJwt {
        key_id: credentials.private_key_id.clone(),
        claims: ClaimSet {
            registered: StandardClaims {
                issuer: Some(credentials.client_email.clone()),
                subject: Some(credentials.client_email.clone()),
                audience: Some(Audience::Single(audience.to_owned())),
                expiry: Some(expiry),
                not_before: None,
                issued_at: Some(now),
                id: None,
            },
            private: JwtOAuthPrivateClaims { scope, client_id, uid: user_id },
        },
    })
}

/// Builds the unsigned token issued now and valid for `duration_secs` seconds.
pub fn create_jwt(
    credentials: &Credentials,
    scope: Option<&Vec<String>>,
    duration_secs: i64,
    client_id: Option<String>,
    user_id: Option<String>,
    audience: &str,
) -> (r: Result<AuthClaimsJwt, FirebaseError>)
    ensures
        r matches Err(e) ==> e is TimestampRange || e is Clock,
        !(r matches Err(e) && e is Clock) ==> exists|now: int|
            #![trigger valid_timestamp(now)]
            {
                &&& valid_timestamp(now)
                &&& 0 <= now <= MAX_TIMESTAMP
                &&& r is Ok <==> valid_timestamp(now + duration_secs)
                &&& r matches Ok(j) ==> j.wf() && built_claims(j, *credentials, opt_views(scope), duration_secs as int,
                    client_id, user_id, audience@, now)
            },
{
    let now = match now_timestamp() {
        Some(t) => t,
        None => return Err(FirebaseError::Clock),
    };
    create_jwt_at(credentials, scope, duration_secs, client_id, user_id, audience, now)
}

/// A freshly built token expires exactly `duration` seconds after it was issued.
pub proof fn fresh_token_expiry(
    j: AuthClaimsJwt,
    credentials: Credentials,
    scope: Option<Seq<Seq<char>>>,
    duration: int,
    client_id: Option<String>,
    user_id: Option<String>,
    audience: Seq<char>,
    now: int,
)
    requires
        duration > 0,
        built_claims(j, credentials, scope, duration, client_id, user_id, audience, now),
    ensures
        j.claims.registered.expiry matches Some(e) && j.claims.registered.issued_at matches Some(i) && e
            == i + duration,
{
}

/// The member for an optional string claim: absent, or the string.
pub open spec fn text_member(v: Option<JsonMember>, claim: Option<String>) -> bool {
    match claim {
        None => v is None,
        Some(s) => v == Some(JsonMember::Text(s@)),
    }
}

/// The member for an optional time claim: absent, or the integer.
pub open spec fn time_member(v: Option<JsonMember>, claim: Option<i64>) -> bool {
    match claim {
        None => v is None,
        Some(t) => v == Some(JsonMember::Number(Some(t))),
    }
}

/// The member for the audience claim: absent, a string, or an array of strings.
pub open spec fn audience_member(v: Option<JsonMember>, claim: Option<Audience>) -> bool {
    match claim {
        None => v is None,
        Some(Audience::Single(s)) => v == Some(JsonMember::Text(s@)),
        Some(Audience::Multiple(w)) => v matches Some(JsonMember::Texts(items)) && items.len() == w@.len()
            && forall|i: int| 0 <= i < w@.len() ==> items[i] == Some(#[trigger] w@[i]@),
    }
}

/// The members of a JSON object lay out the claim set `c`: each claim under its name.
pub open spec fn laid_out(m: Seq<(Seq<char>, JsonMember)>, c: ClaimSet) -> bool {
    &&& text_member(member_lookup(m, "iss"@), c.registered.issuer)
    &&& text_member(member_lookup(m, "sub"@), c.registered.subject)
    &&& audience_member(member_lookup(m, "aud"@), c.registered.audience)
    &&& time_member(member_lookup(m, "exp"@), c.registered.expiry)
    &&& time_member(member_lookup(m, "nbf"@), c.registered.not_before)
    &&& time_member(member_lookup(m, "iat"@), c.registered.issued_at)
    &&& text_member(member_lookup(m, "jti"@), c.registered.id)
    &&& text_member(member_lookup(m, "scope"@), c.private.scope)
    &&& text_member(member_lookup(m, "client_id"@), c.private.client_id)
    &&& text_member(member_lookup(m, "uid"@), c.private.uid)
}

/// Reading back the members that lay out a claim set, whose times a token can carry,
/// succeeds and yields that claim set.
pub proof fn claim_layout_round_trip(m: Seq<(Seq<char>, JsonMember)>, c: ClaimSet)
    requires
        c.registered.wf(),
        laid_out(m, c),
    ensures
        claims_readable(m),
        claims_read(m, c),
{
    match c.registered.audience {
        Some(Audience::Multiple(w)) => {
            let items = member_lookup(m, "aud"@)->0->Texts_0;
            assert(all_texts(items)) by {
                assert forall|i: int| 0 <= i < items.len() implies items[i] is Some by {
                    assert(items[i] == Some(w@[i]@));
                }
            }
        },
        _ => {},
    }
}

pub open spec fn all_writable(entries: Seq<(String, ClaimValue)>) -> bool {
    forall|i: int| 0 <= i < entries.len() ==> writable(#[trigger] entries[i].1@)
}

/// Appends `key` with the string, if there is one.
fn push_text(members: &mut Vec<(String, ClaimValue)>, key: &str, value: &Option<String>)
    requires
        all_writable(old(members)@),
    ensures
        all_writable(final(members)@),
        forall|k: Seq<char>|
            k != key@ ==> #[trigger] member_lookup(members_view(final(members)@), k) == member_lookup(
                members_view(old(members)@),
                k,
            ),
        match value {
            Some(s) => member_lookup(members_view(final(members)@), key@) == Some(JsonMember::Text(s@)),
            None => member_lookup(members_view(final(members)@), key@) == member_lookup(
                members_view(old(members)@),
                key@,
            ),
        },
{
    if let Some(s) = value {
        let ghost before = members_view(members@);
        members.push((String::from_str(key), ClaimValue::Text(s.clone())));
        proof {
            assert(members_view(members@) =~= before.push((key@, JsonMember::Text(s@))));
            lemma_lookup_push(before, (key@, JsonMember::Text(s@)));
        }
    }
}

/// Appends `key` with the integer, if there is one.
fn push_time(members: &mut Vec<(String, ClaimValue)>, key: &str, value: Option<i64>)
    requires
        all_writable(old(members)@),
    ensures
        all_writable(final(members)@),
        forall|k: Seq<char>|
            k != key@ ==> #[trigger] member_lookup(members_view(final(members)@), k) == member_lookup(
                members_view(old(members)@),
                k,
            ),
        match value {
            Some(t) => member_lookup(members_view(final(members)@), key@) == Some(JsonMember::Number(Some(t))),
            None => member_lookup(members_view(final(members)@), key@) == member_lookup(
                members_view(old(members)@),
                key@,
            ),
        },
{
    if let Some(t) = value {
        let ghost before = members_view(members@);
        members.push((String::from_str(key), ClaimValue::Number(Some(t))));
        proof {
            assert(members_view(members@) =~= before.push((key@, JsonMember::Number(Some(t)))));
            lemma_lookup_push(before, (key@, JsonMember::Number(Some(t))));
        }
    }
}

/// Appends the audience, if there is one: a string, or an array of strings.
fn push_audience(members: &mut Vec<(String, ClaimValue)>, value: &Option<Audience>)
    requires
        all_writable(old(members)@),
    ensures
        all_writable(final(members)@),
        forall|k: Seq<char>|
            k != "aud"@ ==> #[trigger] member_lookup(members_view(final(members)@), k) == member_lookup(
                members_view(old(members)@),
                k,
            ),
        value is Some ==> audience_member(member_lookup(members_view(final(members)@), "aud"@), *value),
        value is None ==> member_lookup(members_view(final(members)@), "aud"@) == member_lookup(
            members_view(old(members)@),
            "aud"@,
        ),
{
    let ghost before = members_view(members@);
    let v = match value {
        None => return,
        Some(Audience::Single(s)) => ClaimValue::Text(s.clone()),
        Some(Audience::Multiple(w)) => {
            let mut items: Vec<Option<String>> = Vec::new();
            let mut i: usize = 0;
            while i < w.len()
                invariant
                    i <= w.len(),
                    items@.len() == i,
                    forall|j: int| 0 <= j < i ==> items@[j] == Some(#[trigger] w@[j]),
                decreases w.len() - i,
            {
                items.push(Some(w[i].clone()));
                i = i + 1;
            }
            let ghost iv = items@.map_values(|o: Option<String>| opt_string_view(o));
            assert forall|j: int| 0 <= j < w@.len() implies iv[j] == Some(#[trigger] w@[j]@) by {
                assert(items@[j] == Some(w@[j]));
            }
            assert forall|j: int| 0 <= j < iv.len() implies #[trigger] iv[j] is Some by {
                assert(items@[j] == Some(w@[j]));
            }
            ClaimValue::Texts(items)
        },
    };
    let ghost vv = v@;
    members.push((String::from_str("aud"), v));
    proof {
        assert(members_view(members@) =~= before.push(("aud"@, vv)));
        lemma_lookup_push(before, ("aud"@, vv));
        assert(writable(members@[members@.len() - 1].1@));
    }
}

/// The JSON members that lay out a claim set: each present claim under its name.
pub fn claim_members(c: &ClaimSet) -> (r: Vec<(String, ClaimValue)>)
    ensures
        laid_out(members_view(r@), *c),
        all_writable(r@),
{
    proof {
        reveal_strlit("iss");
        reveal_strlit("sub");
        reveal_strlit("aud");
        reveal_strlit("exp");
        reveal_strlit("nbf");
        reveal_strlit("iat");
        reveal_strlit("jti");
        reveal_strlit("scope");
        reveal_strlit("client_id");
        reveal_strlit("uid");
        assert("iss"@ != "sub"@) by {
            assert("iss"@[0] != "sub"@[0]);
        }
        assert("iss"@ != "aud"@) by {
            assert("iss"@[0] != "aud"@[0]);
        }
        assert("iss"@ != "exp"@) by {
            assert("iss"@[0] != "exp"@[0]);
        }
        assert("iss"@ != "nbf"@) by {
            assert("iss"@[0] != "nbf"@[0]);
        }
        assert("iss"@ != "iat"@) by {
            assert("iss"@[1] != "iat"@[1]);
        }
        assert("iss"@ != "jti"@) by {
            assert("iss"@[0] != "jti"@[0]);
        }
        assert("iss"@ != "scope"@) by {
            assert("iss"@[0] != "scope"@[0]);
        }
        assert("iss"@ != "client_id"@) by {
            assert("iss"@[0] != "client_id"@[0]);
        }
        assert("iss"@ != "uid"@) by {
            assert("iss"@[0] != "uid"@[0]);
        }
        assert("sub"@ != "aud"@) by {
            assert("sub"@[0] != "aud"@[0]);
        }
        assert("sub"@ != "exp"@) by {
            assert("sub"@[0] != "exp"@[0]);
        }
        assert("sub"@ != "nbf"@) by {
            assert("sub"@[0] != "nbf"@[0]);
        }
        assert("sub"@ != "iat"@) by {
            assert("sub"@[0] != "iat"@[0]);
        }
        assert("sub"@ != "jti"@) by {
            assert("sub"@[0] != "jti"@[0]);
        }
        assert("sub"@ != "scope"@) by {
            assert("sub"@[1] != "scope"@[1]);
        }
        assert("sub"@ != "client_id"@) by {
            assert("sub"@[0] != "client_id"@[0]);
        }
        assert("sub"@ != "uid"@) by {
            assert("sub"@[0] != "uid"@[0]);
        }
        assert("aud"@ != "exp"@) by {
            assert("aud"@[0] != "exp"@[0]);
        }
        assert("aud"@ != "nbf"@) by {
            assert("aud"@[0] != "nbf"@[0]);
        }
        assert("aud"@ != "iat"@) by {
            assert("aud"@[0] != "iat"@[0]);
        }
        assert("aud"@ != "jti"@) by {
            assert("aud"@[0] != "jti"@[0]);
        }
        assert("aud"@ != "scope"@) by {
            assert("aud"@[0] != "scope"@[0]);
        }
        assert("aud"@ != "client_id"@) by {
            assert("aud"@[0] != "client_id"@[0]);
        }
        assert("aud"@ != "uid"@) by {
            assert("aud"@[0] != "uid"@[0]);
        }
        assert("exp"@ != "nbf"@) by {
            assert("exp"@[0] != "nbf"@[0]);
        }
        assert("exp"@ != "iat"@) by {
            assert("exp"@[0] != "iat"@[0]);
        }
        assert("exp"@ != "jti"@) by {
            assert("exp"@[0] != "jti"@[0]);
        }
        assert("exp"@ != "scope"@) by {
            assert("exp"@[0] != "scope"@[0]);
        }
        assert("exp"@ != "client_id"@) by {
            assert("exp"@[0] != "client_id"@[0]);
        }
        assert("exp"@ != "uid"@) by {
            assert("exp"@[0] != "uid"@[0]);
        }
        assert("nbf"@ != "iat"@) by {
            assert("nbf"@[0] != "iat"@[0]);
        }
        assert("nbf"@ != "jti"@) by {
            assert("nbf"@[0] != "jti"@[0]);
        }
        assert("nbf"@ != "scope"@) by {
            assert("nbf"@[0] != "scope"@[0]);
        }
        assert("nbf"@ != "client_id"@) by {
            assert("nbf"@[0] != "client_id"@[0]);
        }
        assert("nbf"@ != "uid"@) by {
            assert("nbf"@[0] != "uid"@[0]);
        }
        assert("iat"@ != "jti"@) by {
            assert("iat"@[0] != "jti"@[0]);
        }
        assert("iat"@ != "scope"@) by {
            assert("iat"@[0] != "scope"@[0]);
        }
        assert("iat"@ != "client_id"@) by {
            assert("iat"@[0] != "client_id"@[0]);
        }
        assert("iat"@ != "uid"@) by {
            assert("iat"@[0] != "uid"@[0]);
        }
        assert("jti"@ != "scope"@) by {
            assert("jti"@[0] != "scope"@[0]);
        }
        assert("jti"@ != "client_id"@) by {
            assert("jti"@[0] != "client_id"@[0]);
        }
        assert("jti"@ != "uid"@) by {
            assert("jti"@[0] != "uid"@[0]);
        }
        assert("scope"@ != "client_id"@) by {
            assert("scope"@[0] != "client_id"@[0]);
        }
        assert("scope"@ != "uid"@) by {
            assert("scope"@[0] != "uid"@[0]);
        }
        assert("client_id"@ != "uid"@) by {
            assert("client_id"@[0] != "uid"@[0]);
        }
    }
    let mut r: Vec<(String, ClaimValue)> = Vec::new();
    assert(members_view(r@) =~= Seq::<(Seq<char>, JsonMember)>::empty());
    push_text(&mut r, "iss", &c.registered.issuer);
    push_text(&mut r, "sub", &c.registered.subject);
    push_audience(&mut r, &c.registered.audience);
    push_time(&mut r, "exp", c.registered.expiry);
    push_time(&mut r, "nbf", c.registered.not_before);
    push_time(&mut r, "iat", c.registered.issued_at);
    push_text(&mut r, "jti", &c.registered.id);
    push_text(&mut r, "scope", &c.private.scope);
    push_text(&mut r, "client_id", &c.private.client_id);
    push_text(&mut r, "uid", &c.private.uid);
    r
}

/// Signs the unsigned token with the credentials' private key, RS256. The token's header
/// names the key id and its claims part reads back as the claim set.
pub fn encode_jwt(credentials: &Credentials, jwt: &AuthClaimsJwt) -> (r: Result<String, FirebaseError>)
    requires
        jwt.wf(),
    ensures
        !credentials.has_signing_key() <==> (r matches Err(e) && e is Configuration),
        r matches Err(e) ==> e is Configuration || e is Signing,
        r matches Ok(t) ==> token_carries(t@, jwt.claims) && header_key_id(t@) == Some(jwt.key_id@),
{
    let key = match credentials.signing_key() {
        Some(k) => k,
        None => return Err(FirebaseError::Configuration),
    };
    let members = claim_members(&jwt.claims);
    let ghost mv = members_view(members@);
    let payload = match json_object_bytes(members) {
        Ok(b) => b,
        Err(_) => return Err(FirebaseError::Signing),
    };
    match sign_payload(&jwt.key_id, payload, key) {
        Ok(t) => {
            proof {
                let m = json_members_of(payload@)->0;
                assert(laid_out(m, jwt.claims));
                claim_layout_round_trip(m, jwt.claims);
            }
            Ok(t)
        },
        Err(_) => Err(FirebaseError::Signing),
    }
}

/// Builds a token issued now and signs it.
pub fn create_jwt_encoded(
    credentials: &Credentials,
    scope: Option<&Vec<String>>,
    duration_secs: i64,
    client_id: Option<String>,
    user_id: Option<String>,
    audience: &str,
) -> (r: Result<String, FirebaseError>)
    ensures
        !credentials.has_signing_key() <==> (r matches Err(e) && e is Configuration),
        r matches Err(e) ==> e is TimestampRange || e is Configuration || e is Signing || e is Clock,
        r matches Ok(t) ==> exists|j: AuthClaimsJwt, now: int|
            {
                &&& built_claims(j, *credentials, opt_views(scope), duration_secs as int, client_id, user_id,
                    audience@, now)
                &&& token_carries(t@, j.claims)
                &&& header_key_id(t@) == Some(credentials.private_key_id@)
            },
{
    if !credentials.signing_key_present() {
        return Err(FirebaseError::Configuration);
    }
    let jwt = create_jwt(credentials, scope, duration_secs, client_id, user_id, audience)?;
    encode_jwt(credentials, &jwt)
}

/// A signed duration in whole minutes, truncated toward zero.
pub open spec fn whole_minutes(secs: int) -> int {
    if secs >= 0 {
        secs / 60
    } else {
        -((-secs) / 60)
    }
}

/// Whether a token with this expiry counts as expired at `now`, given a tolerance in
/// minutes. A token without expiry counts as expired.
pub open spec fn expired(expiry: Option<i64>, now: int, tolerance: int) -> bool {
    match expiry {
        None => true,
        Some(e) => whole_minutes(now - e) - tolerance > 0,
    }
}

/// Whether the expiry lies more than `tolerance_in_minutes` whole minutes before `now`.
pub fn is_expired_at(expiry: Option<i64>, now: i64, tolerance_in_minutes: i64) -> (r: bool)
    requires
        valid_timestamp(now as int),
        opt_timestamp_valid(expiry),
    ensures
        r == expired(expiry, now as int, tolerance_in_minutes as int),
{
    match expiry {
        None => true,
        Some(e) => {
            let diff = now - e;
            let minutes = if diff >= 0 {
                diff / 60
            } else {
                -((-diff) / 60)
            };
            minutes > tolerance_in_minutes
        },
    }
}

/// A larger tolerance never makes a token expired that was not expired under a smaller one.
pub proof fn expiry_monotonic_in_tolerance(expiry: Option<i64>, now: int, smaller: int, larger: int)
    requires
        smaller <= larger,
    ensures
        !expired(expiry, now, smaller) ==> !expired(expiry, now, larger),
{
}

/// Reads the expiry of a token, without checking its signature, and tells whether it lies
/// more than `tolerance_in_minutes` whole minutes before the current time.
pub fn is_expired(access_token: &str, tolerance_in_minutes: i64) -> (r: Result<bool, FirebaseError>)
    ensures
        !token_readable(access_token@) ==> (r matches Err(e) && e is TokenFormat),
        token_readable(access_token@) ==> (r is Ok || (r matches Err(e) && e is Clock)),
        r matches Ok(b) ==> exists|c: ClaimSet, now: int|
            {
                &&& token_carries(access_token@, c)
                &&& 0 <= now <= MAX_TIMESTAMP
                &&& b == expired(c.registered.expiry, now, tolerance_in_minutes as int)
            },
{
    let claims = unverified_token_claims(access_token)?;
    let now = match now_timestamp() {
        Some(t) => t,
        None => return Err(FirebaseError::Clock),
    };
    Ok(is_expired_at(claims.registered.expiry, now, tolerance_in_minutes))
}

/// Whether a claim set issued at `issued_at` is due for reissue at `now`: it has no issue
/// time, or that lies more than `max_age` whole minutes back.
pub open spec fn stale(issued_at: Option<i64>, now: int, max_age: int) -> bool {
    match issued_at {
        None => true,
        Some(i) => whole_minutes(now - i) > max_age,
    }
}

/// `j` with its issue time set to `t`, all else unchanged.
pub open spec fn with_issued_at(j: AuthClaimsJwt, t: i64) -> AuthClaimsJwt {
    AuthClaimsJwt {
        claims: ClaimSet {
            registered: StandardClaims { issued_at: Some(t), ..j.claims.registered },
            ..j.claims
        },
        ..j
    }
}

/// Moves the issue time to `now` when it is absent or older than `expire_in_minutes`
/// whole minutes; tells whether it did, that is whether the token needs signing again.
pub fn jwt_update_expiry_if_at(jwt: &mut AuthClaimsJwt, expire_in_minutes: i64, now: i64) -> (r: bool)
    requires
        old(jwt).wf(),
        valid_timestamp(now as int),
    ensures
        r == stale(old(jwt).claims.registered.issued_at, now as int, expire_in_minutes as int),
        r ==> *final(jwt) == with_issued_at(*old(jwt), now),
        !r ==> *final(jwt) == *old(jwt),
        final(jwt).wf(),
{
    match jwt.claims.registered.issued_at {
        Some(issued_at) => {
            let diff = now - issued_at;
            let minutes = if diff >= 0 {
                diff / 60
            } else {
                -((-diff) / 60)
            };
            if minutes > expire_in_minutes {
                jwt.claims.registered.issued_at = Some(now);
                true
            } else {
                false
            }
        },
        None => {
            jwt.claims.registered.issued_at = Some(now);
            true
        },
    }
}

/// As `jwt_update_expiry_if_at`, at the current time; leaves the token alone when the
/// clock cannot be read.
pub fn jwt_update_expiry_if(jwt: &mut AuthClaimsJwt, expire_in_minutes: i64) -> (r: bool)
    requires
        old(jwt).wf(),
    ensures
        final(jwt).wf(),
        !r ==> *final(jwt) == *old(jwt),
        r ==> exists|now: i64|
            {
                &&& 0 <= now <= MAX_TIMESTAMP
                &&& stale(old(jwt).claims.registered.issued_at, now as int, expire_in_minutes as int)
                &&& *final(jwt) == with_issued_at(*old(jwt), now)
            },
{
    match now_timestamp() {
        Some(now) => jwt_update_expiry_if_at(jwt, expire_in_minutes, now),
        None => false,
    }
}

/// Once a claim set has been reissued at `t1`, a later call at any `t2` less than
/// `max_age + 1` minutes on finds it fresh, so within that window it is reissued once.
pub proof fn reissue_once_per_window(t1: i64, t2: i64, max_age: i64)
    requires
        max_age >= 0,
        t1 <= t2,
        t2 - t1 < 60 * (max_age + 1),
    ensures
        !stale(Some(t1), t2 as int, max_age as int),
{
    let d = t2 - t1;
    assert(d / 60 <= max_age) by (nonlinear_arith)
        requires
            0 <= d < 60 * (max_age + 1),
    ;
}

/// A string claim that is absent or null reads as absent, a string as itself; any other
/// value is malformed.
pub open spec fn claim_text(v: Option<JsonMember>) -> Option<Option<Seq<char>>> {
    match v {
        None => Some(None),
        Some(JsonMember::Null) => Some(None),
        Some(JsonMember::Text(s)) => Some(Some(s)),
        _ => None,
    }
}

/// A time claim that is absent or null reads as absent, an integer a token can carry as
/// itself; any other value is malformed.
pub open spec fn claim_time(v: Option<JsonMember>) -> Option<Option<i64>> {
    match v {
        None => Some(None),
        Some(JsonMember::Null) => Some(None),
        Some(JsonMember::Number(Some(t))) => if valid_timestamp(t as int) {
            Some(Some(t))
        } else {
            None
        },
        _ => None,
    }
}

pub open spec fn all_texts(items: Seq<Option<Seq<char>>>) -> bool {
    forall|i: int| 0 <= i < items.len() ==> items[i] is Some
}

/// The audience claim reads as absent when absent or null, as one audience from a string,
/// and as several from an array of strings; any other value is malformed.
pub open spec fn audience_readable(v: Option<JsonMember>) -> bool {
    match v {
        None => true,
        Some(JsonMember::Null) => true,
        Some(JsonMember::Text(_)) => true,
        Some(JsonMember::Texts(items)) => all_texts(items),
        _ => false,
    }
}

pub open spec fn audience_read(v: Option<JsonMember>, a: Option<Audience>) -> bool {
    match v {
        Some(JsonMember::Text(s)) => a matches Some(Audience::Single(t)) && t@ == s,
        Some(JsonMember::Texts(items)) => a matches Some(Audience::Multiple(w)) && w@.len() == items.len()
            && forall|i: int| 0 <= i < w@.len() ==> items[i] == Some(#[trigger] w@[i]@),
        _ => a is None,
    }
}

pub proof fn lemma_lookup_push(m: Seq<(Seq<char>, JsonMember)>, x: (Seq<char>, JsonMember))
    ensures
        forall|k: Seq<char>|
            #[trigger] member_lookup(m.push(x), k) == if x.0 == k {
                Some(x.1)
            } else {
                member_lookup(m, k)
            },
{
    assert(m.push(x).drop_last() =~= m);
}

fn find_claim<'a>(entries: &'a Vec<(String, ClaimValue)>, key: &String) -> (r: Option<&'a ClaimValue>)
    ensures
        match r {
            Some(v) => member_lookup(members_view(entries@), key@) == Some(v@),
            None => member_lookup(members_view(entries@), key@) is None,
        },
{
    let ghost mv = members_view(entries@);
    let mut found: Option<&ClaimValue> = None;
    let mut i: usize = 0;
    while i < entries.len()
        invariant
            i <= entries.len(),
            mv == members_view(entries@),
            match found {
                Some(v) => member_lookup(mv.subrange(0, i as int), key@) == Some(v@),
                None => member_lookup(mv.subrange(0, i as int), key@) is None,
            },
        decreases entries.len() - i,
    {
        proof {
            assert(mv.subrange(0, i + 1) =~= mv.subrange(0, i as int).push(mv[i as int]));
            lemma_lookup_push(mv.subrange(0, i as int), mv[i as int]);
        }
        if entries[i].0 == *key {
            found = Some(&entries[i].1);
        }
        i = i + 1;
    }
    assert(mv.subrange(0, entries.len() as int) =~= mv);
    found
}

fn text_claim(entries: &Vec<(String, ClaimValue)>, key: &str) -> (r: Option<Option<String>>)
    ensures
        r is Some <==> claim_text(member_lookup(members_view(entries@), key@)) is Some,
        r matches Some(o) ==> claim_text(member_lookup(members_view(entries@), key@)) == Some(opt_string_view(o)),
{
    match find_claim(entries, &String::from_str(key)) {
        None => Some(None),
        Some(ClaimValue::Null) => Some(None),
        Some(ClaimValue::Text(s)) => Some(Some(s.clone())),
        Some(_) => None,
    }
}

fn time_claim(entries: &Vec<(String, ClaimValue)>, key: &str) -> (r: Option<Option<i64>>)
    ensures
        r == claim_time(member_lookup(members_view(entries@), key@)),
{
    match find_claim(entries, &String::from_str(key)) {
        None => Some(None),
        Some(ClaimValue::Null) => Some(None),
        Some(ClaimValue::Number(Some(t))) => if MIN_TIMESTAMP <= *t && *t <= MAX_TIMESTAMP {
            Some(Some(*t))
        } else {
            None
        },
        Some(_) => None,
    }
}

fn audience_claim(entries: &Vec<(String, ClaimValue)>) -> (r: Option<Option<Audience>>)
    ensures
        r is Some <==> audience_readable(member_lookup(members_view(entries@), "aud"@)),
        r matches Some(a) ==> audience_read(member_lookup(members_view(entries@), "aud"@), a),
{
    let key = String::from_str("aud");
    let found = find_claim(entries, &key);
    match found {
        None => Some(None),
        Some(ClaimValue::Null) => Some(None),
        Some(ClaimValue::Text(s)) => Some(Some(Audience::Single(s.clone()))),
        Some(ClaimValue::Texts(items)) => {
            let ghost iv = items@.map_values(|o: Option<String>| opt_string_view(o));
            assert(member_lookup(members_view(entries@), "aud"@) == Some(JsonMember::Texts(iv)));
            let mut w: Vec<String> = Vec::new();
            let mut i: usize = 0;
            while i < items.len()
                invariant
                    i <= items.len(),
                    w@.len() == i,
                    iv == items@.map_values(|o: Option<String>| opt_string_view(o)),
                    forall|j: int| 0 <= j < i ==> iv[j] == Some(#[trigger] w@[j]@),
                    member_lookup(members_view(entries@), "aud"@) == Some(JsonMember::Texts(iv)),
                decreases items.len() - i,
            {
                match &items[i] {
                    Some(t) => w.push(t.clone()),
                    None => {
                        assert(iv[i as int] is None);
                        assert(!all_texts(iv));
                        return None;
                    },
                }
                i = i + 1;
            }
            assert(all_texts(iv)) by {
                assert forall|j: int| 0 <= j < iv.len() implies iv[j] is Some by {
                    assert(iv[j] == Some(w@[j]@));
                }
            }
            Some(Some(Audience::Multiple(w)))
        },
        Some(_) => None,
    }
}

/// The private claims can be read from the members.
pub open spec fn private_readable(m: Seq<(Seq<char>, JsonMember)>) -> bool {
    &&& claim_text(member_lookup(m, "scope"@)) is Some
    &&& claim_text(member_lookup(m, "client_id"@)) is Some
    &&& claim_text(member_lookup(m, "uid"@)) is Some
}

/// `p` is what the private claims read as.
pub open spec fn private_read(m: Seq<(Seq<char>, JsonMember)>, p: JwtOAuthPrivateClaims) -> bool {
    &&& claim_text(member_lookup(m, "scope"@)) == Some(opt_string_view(p.scope))
    &&& claim_text(member_lookup(m, "client_id"@)) == Some(opt_string_view(p.client_id))
    &&& claim_text(member_lookup(m, "uid"@)) == Some(opt_string_view(p.uid))
}

/// Reads the scope, client id and user id from a token's members.
pub fn private_claims_from(entries: &Vec<(String, ClaimValue)>) -> (r: Result<JwtOAuthPrivateClaims, FirebaseError>)
    ensures
        r is Ok <==> private_readable(members_view(entries@)),
        r matches Ok(p) ==> private_read(members_view(entries@), p),
        r matches Err(e) ==> e is TokenFormat,
{
    let scope = text_claim(entries, "scope");
    let client_id = text_claim(entries, "client_id");
    let uid = text_claim(entries, "uid");
    match (scope, client_id, uid) {
        (Some(scope), Some(client_id), Some(uid)) => Ok(JwtOAuthPrivateClaims { scope, client_id, uid }),
        _ => Err(FirebaseError::TokenFormat),
    }
}

/// The members of a token's claims part can be read as a claim set.
pub open spec fn claims_readable(m: Seq<(Seq<char>, JsonMember)>) -> bool {
    &&& claim_text(member_lookup(m, "iss"@)) is Some
    &&& claim_text(member_lookup(m, "sub"@)) is Some
    &&& audience_readable(member_lookup(m, "aud"@))
    &&& claim_time(member_lookup(m, "exp"@)) is Some
    &&& claim_time(member_lookup(m, "nbf"@)) is Some
    &&& claim_time(member_lookup(m, "iat"@)) is Some
    &&& claim_text(member_lookup(m, "jti"@)) is Some
    &&& private_readable(m)
}

/// `c` is the claim set the members read as.
pub open spec fn claims_read(m: Seq<(Seq<char>, JsonMember)>, c: ClaimSet) -> bool {
    let r = c.registered;
    &&& claim_text(member_lookup(m, "iss"@)) == Some(opt_string_view(r.issuer))
    &&& claim_text(member_lookup(m, "sub"@)) == Some(opt_string_view(r.subject))
    &&& audience_read(member_lookup(m, "aud"@), r.audience)
    &&& claim_time(member_lookup(m, "exp"@)) == Some(r.expiry)
    &&& claim_time(member_lookup(m, "nbf"@)) == Some(r.not_before)
    &&& claim_time(member_lookup(m, "iat"@)) == Some(r.issued_at)
    &&& claim_text(member_lookup(m, "jti"@)) == Some(opt_string_view(r.id))
    &&& private_read(m, c.private)
}

/// Reads the registered and private claims from the members of a token's claims part.
pub fn claims_from_entries(entries: &Vec<(String, ClaimValue)>) -> (r: Result<ClaimSet, FirebaseError>)
    ensures
        r is Ok <==> claims_readable(members_view(entries@)),
        r matches Ok(c) ==> claims_read(members_view(entries@), c) && c.registered.wf(),
        r matches Err(e) ==> e is TokenFormat,
{
    let issuer = text_claim(entries, "iss");
    let subject = text_claim(entries, "sub");
    let audience = audience_claim(entries);
    let expiry = time_claim(entries, "exp");
    let not_before = time_claim(entries, "nbf");
    let issued_at = time_claim(entries, "iat");
    let id = text_claim(entries, "jti");
    let private = private_claims_from(entries);
    match (issuer, subject, audience, expiry, not_before, issued_at, id, private) {
        (Some(issuer), Some(subject), Some(audience), Some(expiry), Some(not_before), Some(issued_at), Some(id), Ok(
            private,
        )) => Ok(ClaimSet {
            registered: StandardClaims { issuer, subject, audience, expiry, not_before, issued_at, id },
            private,
        }),
        _ => Err(FirebaseError::TokenFormat),
    }
}

/// The members of a compact token's claims part, read without checking the signature.
pub open spec fn token_members(token: Seq<char>) -> Option<Seq<(Seq<char>, JsonMember)>> {
    match payload_of(token) {
        Some(p) => json_members_of(p),
        None => None,
    }
}

/// The token's claims part decodes to members that read as a claim set.
pub open spec fn token_readable(token: Seq<char>) -> bool {
    token_members(token) matches Some(m) && claims_readable(m)
}

/// The token's claims part reads as `c`.
pub open spec fn token_carries(token: Seq<char>, c: ClaimSet) -> bool {
    token_members(token) matches Some(m) && claims_readable(m) && claims_read(m, c)
}

/// Decodes the claims of a compact token without checking its signature.
pub fn unverified_token_claims(token: &str) -> (r: Result<ClaimSet, FirebaseError>)
    ensures
        r is Ok <==> token_readable(token@),
        r matches Ok(c) ==> token_carries(token@, c) && c.registered.wf(),
        r matches Err(e) ==> e is TokenFormat,
{
    let bytes = match unverified_payload(token) {
        Ok(b) => b,
        Err(_) => return Err(FirebaseError::TokenFormat),
    };
    let entries = match json_object_entries(&bytes) {
        Ok(e) => e,
        Err(_) => return Err(FirebaseError::TokenFormat),
    };
    claims_from_entries(&entries)
}

pub open spec fn audience_present(a: Option<Audience>) -> bool {
    match a {
        Some(Audience::Single(_)) => true,
        Some(Audience::Multiple(v)) => v@.len() > 0,
        None => false,
    }
}

/// The first audience of the claim.
pub open spec fn first_audience(a: Option<Audience>) -> String
    recommends
        audience_present(a),
{
    match a {
        Some(Audience::Single(s)) => s,
        Some(Audience::Multiple(v)) => v@[0],
        None => arbitrary(),
    }
}

/// `iat`, `exp`, `iss`, `aud` and `sub` are all present, `aud` with at least one entry.
pub open spec fn has_required_claims(c: StandardClaims) -> bool {
    &&& c.issued_at is Some
    &&& c.expiry is Some
    &&& c.issuer is Some
    &&& audience_present(c.audience)
    &&& c.subject is Some
}

/// Why claims fail at `now`, checked in order: a required claim is missing, the token has
/// expired, or it is not valid yet by `nbf` or `iat`.
pub open spec fn claims_failure(c: StandardClaims, now: int) -> Option<VerificationFailure> {
    if !has_required_claims(c) {
        Some(VerificationFailure::MissingClaims)
    } else if now > c.expiry->0 {
        Some(VerificationFailure::Expired)
    } else if c.not_before matches Some(nbf) && nbf > now {
        Some(VerificationFailure::NotYetValid)
    } else if c.issued_at->0 > now {
        Some(VerificationFailure::NotYetValid)
    } else {
        None
    }
}

/// What verification hands back for accepted claims.
pub open spec fn validation_result(c: ClaimSet) -> TokenValidationResult {
    TokenValidationResult {
        claims: c.private,
        audience: first_audience(c.registered.audience),
        subject: c.registered.subject->0,
    }
}

/// Checks decoded claims at `now` and, when they pass, hands back the private claims, the
/// subject and the first audience.
pub fn check_claims(claims: ClaimSet, now: i64) -> (r: Result<TokenValidationResult, FirebaseError>)
    ensures
        match claims_failure(claims.registered, now as int) {
            Some(f) => r matches Err(e) && e == FirebaseError::Verification(f),
            None => r == Ok::<TokenValidationResult, FirebaseError>(validation_result(claims)),
        },
{
    let ghost c0 = claims;
    let ClaimSet { registered, private } = claims;
    let missing = registered.issued_at.is_none() || registered.expiry.is_none() || registered.issuer.is_none()
        || registered.subject.is_none();
    let audience = match registered.audience {
        Some(Audience::Single(s)) => Some(s),
        Some(Audience::Multiple(v)) => {
            if v.len() > 0 {
                Some(v[0].clone())
            } else {
                None
            }
        },
        None => None,
    };
    if missing || audience.is_none() {
        return Err(FirebaseError::Verification(VerificationFailure::MissingClaims));
    }
    let expiry = registered.expiry.unwrap();
    let issued_at = registered.issued_at.unwrap();
    if now > expiry {
        return Err(FirebaseError::Verification(VerificationFailure::Expired));
    }
    if let Some(nbf) = registered.not_before {
        if nbf > now {
            return Err(FirebaseError::Verification(VerificationFailure::NotYetValid));
        }
    }
    if issued_at > now {
        return Err(FirebaseError::Verification(VerificationFailure::NotYetValid));
    }
    Ok(TokenValidationResult { claims: private, audience: audience.unwrap(), subject: registered.subject.unwrap() })
}

/// The token's header names a key of the credentials and its RS256 signature verifies under
/// that key.
pub open spec fn signature_checks(credentials: Credentials, token: Seq<char>) -> bool {
    header_key_id(token) matches Some(k) && credentials.verification_key(k) matches Some(key) && rs256_verifies(
        token,
        key,
    )
}

/// The token verifies at `now`: its signature checks and its claims pass.
pub open spec fn token_verifies(credentials: Credentials, token: Seq<char>, now: int) -> bool {
    &&& signature_checks(credentials, token)
    &&& exists|c: ClaimSet| token_carries(token, c) && claims_failure(c.registered, now) is None
}

/// Two readings of the same members fail, or pass, alike.
pub proof fn lemma_read_failure(m: Seq<(Seq<char>, JsonMember)>, c1: ClaimSet, c2: ClaimSet, now: int)
    requires
        claims_read(m, c1),
        claims_read(m, c2),
    ensures
        claims_failure(c1.registered, now) == claims_failure(c2.registered, now),
{
    assert(c1.registered.issuer is Some <==> c2.registered.issuer is Some);
    assert(c1.registered.subject is Some <==> c2.registered.subject is Some);
    assert(audience_present(c1.registered.audience) == audience_present(c2.registered.audience));
}

/// Verification at `now`: the header's key id must name a key of the credentials, the RS256
/// signature must verify under it, and the claims must read and pass `check_claims`.
pub fn verify_access_token_at(credentials: &Credentials, access_token: &str, now: i64) -> (r: Result<
    TokenValidationResult,
    FirebaseError,
>)
    ensures
        r is Ok <==> token_verifies(*credentials, access_token@, now as int),
        r matches Ok(v) ==> exists|c: ClaimSet|
            {
                &&& token_carries(access_token@, c)
                &&& claims_failure(c.registered, now as int) is None
                &&& v == validation_result(c)
            },
        (header_key_id(access_token@) matches Some(k) && credentials.verification_key(k) is None) ==> (r matches Err(
            e,
        ) && e is UnknownKey),
        (header_key_id(access_token@) matches Some(k) && credentials.verification_key(k) matches Some(key)
            && !rs256_verifies(access_token@, key)) ==> (r matches Err(e) && e == FirebaseError::Verification(
            VerificationFailure::BadSignature,
        )),
        signature_checks(*credentials, access_token@) && !token_readable(access_token@) ==> (r matches Err(e)
            && e is TokenFormat),
        forall|c: ClaimSet|
            signature_checks(*credentials, access_token@) && #[trigger] token_carries(access_token@, c) ==> match claims_failure(
                c.registered,
                now as int,
            ) {
                Some(f) => r matches Err(e) && e == FirebaseError::Verification(f),
                None => r is Ok,
            },
{
    let kid = match unverified_key_id(access_token) {
        Ok(Some(k)) => k,
        Ok(None) => return Err(FirebaseError::UnknownKey),
        Err(_) => return Err(FirebaseError::TokenFormat),
    };
    let key = match credentials.decode_secret(&kid) {
        Some(k) => k,
        None => return Err(FirebaseError::UnknownKey),
    };
    let payload = match verified_payload(access_token, key) {
        Ok(p) => p,
        Err(_) => return Err(FirebaseError::Verification(VerificationFailure::BadSignature)),
    };
    let entries = match json_object_entries(&payload) {
        Ok(e) => e,
        Err(_) => return Err(FirebaseError::TokenFormat),
    };
    let claims = match claims_from_entries(&entries) {
        Ok(c) => c,
        Err(e) => return Err(e),
    };
    let ghost c0 = claims;
    let ghost m = members_view(entries@);
    proof {
        assert(token_carries(access_token@, c0));
        assert forall|c: ClaimSet| #[trigger] token_carries(access_token@, c) implies claims_failure(
            c.registered,
            now as int,
        ) == claims_failure(c0.registered, now as int) by {
            lemma_read_failure(m, c, c0, now as int);
        }
    }
    check_claims(claims, now)
}

/// Verification at the current time; fails when the clock cannot be read.
pub fn verify_access_token(credentials: &Credentials, access_token: &str) -> (r: Result<
    TokenValidationResult,
    FirebaseError,
>)
    ensures
        (header_key_id(access_token@) matches Some(k) && credentials.verification_key(k) is None) ==> r is Err,
        !signature_checks(*credentials, access_token@) ==> r is Err,
        r matches Ok(v) ==> exists|c: ClaimSet, now: int|
            {
                &&& token_verifies(*credentials, access_token@, now)
                &&& token_carries(access_token@, c)
                &&& claims_failure(c.registered, now) is None
                &&& v == validation_result(c)
            },
{
    let now = match now_timestamp() {
        Some(t) => t,
        None => return Err(FirebaseError::Clock),
    };
    verify_access_token_at(credentials, access_token, now)
}

/// Claims that lack any of `iat`, `exp`, `iss`, `aud`, `sub` are rejected, whatever the time.
pub proof fn missing_claims_rejected(c: StandardClaims, now: int)
    requires
        !has_required_claims(c),
    ensures
        claims_failure(c, now) == Some(VerificationFailure::MissingClaims),
{
}

/// A claim set built for signing, checked at a time between its issue and its expiry,
/// passes verification and hands back exactly its private claims, its subject (the account
/// email) and its audience.
pub proof fn built_claims_verify(
    j: AuthClaimsJwt,
    credentials: Credentials,
    scope: Option<Seq<Seq<char>>>,
    duration: int,
    client_id: Option<String>,
    user_id: Option<String>,
    audience: Seq<char>,
    now: int,
    later: int,
)
    requires
        built_claims(j, credentials, scope, duration, client_id, user_id, audience, now),
        now <= later <= now + duration,
    ensures
        claims_failure(j.claims.registered, later) is None,
        validation_result(j.claims).claims == j.claims.private,
        validation_result(j.claims).subject == credentials.client_email,
        validation_result(j.claims).audience@ == audience,
{
}

/// A token signed from a freshly built claim set, whose signature checks against the
/// credentials' keys, verifies at any time between its issue and its expiry.
pub proof fn signed_token_verifies(
    credentials: Credentials,
    token: Seq<char>,
    j: AuthClaimsJwt,
    scope: Option<Seq<Seq<char>>>,
    duration: int,
    client_id: Option<String>,
    user_id: Option<String>,
    audience: Seq<char>,
    now: int,
    later: int,
)
    requires
        built_claims(j, credentials, scope, duration, client_id, user_id, audience, now),
        token_carries(token, j.claims),
        signature_checks(credentials, token),
        now <= later <= now + duration,
    ensures
        token_verifies(credentials, token, later),
{
    assert(token_carries(token, j.claims) && claims_failure(j.claims.registered, later) is None);
}

} // verus!
