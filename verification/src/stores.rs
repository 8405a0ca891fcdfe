//! The durable stores, in memory: clients, sessions, consents and tokens. A
//! session changes only through its named transitions; a token row only by
//! rotation. What these stores answer is what the protocol counts on from
//! any store that stands in their place.
use vstd::prelude::*;
use crate::domain::{
    NewConsent, NewSession, NewToken, OauthClient, OauthConsent, OauthSession, OauthToken,
};
use crate::text::same_text;

verus! {

/// The status of a row that is in use.
pub const ACTIVE: i32 = 1;

/// The session that `new` becomes when it is stored under `id` at `now`.
pub open spec fn opened(new: NewSession, id: u128, now: i64) -> OauthSession {
    OauthSession {
        id,
        client_id: new.client_id,
        user_id: None,
        scopes: new.scopes,
        redirect_uri: new.redirect_uri,
        state: new.state,
        response_type: new.response_type,
        code_challenge: new.code_challenge,
        code_challenge_method: new.code_challenge_method,
        status: ACTIVE,
        consent_granted_at: None,
        created_at: now,
        updated_at: now,
    }
}

/// The token row that `new` becomes when it is stored under `id` at `now`.
pub open spec fn recorded(new: NewToken, id: u128, now: i64) -> OauthToken {
    OauthToken {
        id,
        session_id: new.session_id,
        access_token: new.access_token,
        refresh_token: new.refresh_token,
        status: ACTIVE,
        created_at: now,
        updated_at: now,
    }
}

/// Whether some session of `rows` has the identifier `id`.
pub open spec fn has_session(rows: Seq<OauthSession>, id: u128) -> bool {
    exists|i: int| 0 <= i < rows.len() && rows[i].id == id
}

/// What no change to the session store undoes: every session stays, a bound
/// user stays the user, and consent that stands keeps standing.
pub open spec fn keeps(before: Seq<OauthSession>, after: Seq<OauthSession>) -> bool {
    &&& before.len() <= after.len()
    &&& forall|i: int|
        #![trigger after[i]]
        0 <= i < before.len() ==> {
            &&& after[i].id == before[i].id
            &&& before[i].user_id is Some ==> after[i].user_id == before[i].user_id
            &&& before[i].consent_granted_at is Some ==> after[i].consent_granted_at is Some
        }
}

/// No two sessions share an identifier.
pub open spec fn sessions_distinct(rows: Seq<OauthSession>) -> bool {
    forall|i: int, j: int| 0 <= i < j < rows.len() ==> rows[i].id != rows[j].id
}

/// Whether some row of `rows` is kept under the refresh digest `digest`.
pub open spec fn has_refresh_digest(rows: Seq<OauthToken>, digest: Seq<char>) -> bool {
    exists|i: int| 0 <= i < rows.len() && rows[i].refresh_token@ == digest
}

/// Whether some row of `rows` is kept under the access digest `digest`.
pub open spec fn has_access_digest(rows: Seq<OauthToken>, digest: Seq<char>) -> bool {
    exists|i: int| 0 <= i < rows.len() && rows[i].access_token@ == digest
}

/// Whether some row of `rows` has the identifier `id`.
pub open spec fn has_token(rows: Seq<OauthToken>, id: u128) -> bool {
    exists|i: int| 0 <= i < rows.len() && rows[i].id == id
}

/// No two token rows share an identifier, a refresh digest or an access
/// digest.
pub open spec fn tokens_distinct(rows: Seq<OauthToken>) -> bool {
    forall|i: int, j: int|
        0 <= i < j < rows.len() ==> rows[i].id != rows[j].id && rows[i].refresh_token@
            != rows[j].refresh_token@ && rows[i].access_token@ != rows[j].access_token@
}

/// The rows after the row at `i` took the digests `access` and `refresh` at
/// `now`.
pub open spec fn rotated(
    rows: Seq<OauthToken>,
    i: int,
    access: String,
    refresh: String,
    now: i64,
) -> Seq<OauthToken> {
    rows.update(
        i,
        OauthToken { access_token: access, refresh_token: refresh, updated_at: now, ..rows[i] },
    )
}

/// Whether the row at `i` can take the digests without any other row holding
/// one of them.
pub open spec fn can_rotate(rows: Seq<OauthToken>, i: int, access: Seq<char>, refresh: Seq<char>) -> bool {
    forall|j: int|
        0 <= j < rows.len() && j != i ==> rows[j].refresh_token@ != refresh
            && rows[j].access_token@ != access
}

/// Whether a search that skips `skip` passes over the position `j`.
pub open spec fn is_skipped(skip: Option<usize>, j: int) -> bool {
    skip matches Some(s) && s == j
}

/// The session store.
pub struct SessionStore {
    rows: Vec<OauthSession>,
}

/// The token store.
pub struct TokenStore {
    rows: Vec<OauthToken>,
}

impl SessionStore {
    /// The sessions stored, in the order they were created.
    pub closed spec fn view(&self) -> Seq<OauthSession> {
        self.rows@
    }

    #[verifier::type_invariant]
    spec fn wf(&self) -> bool {
        sessions_distinct(self.rows@)
    }

    pub fn new() -> (r: Self)
        ensures
            r@.len() == 0,
    {
        SessionStore { rows: Vec::new() }
    }

    fn position(&self, id: u128) -> (r: Option<usize>)
        ensures
            match r {
                Some(i) => i < self@.len() && self@[i as int].id == id,
                None => !has_session(self@, id),
            },
    {
        let mut i: usize = 0;
        while i < self.rows.len()
            invariant
                i <= self.rows@.len(),
                forall|j: int| 0 <= j < i ==> self.rows@[j].id != id,
            decreases self.rows@.len() - i,
        {
            if self.rows[i].id == id {
                return Some(i);
            }
            i = i + 1;
        }
        None
    }

    /// Creates a session under `id`, unless the identifier is taken.
    pub fn insert(&mut self, new: NewSession, id: u128, now: i64) -> (r: Option<u128>)
        ensures
            sessions_distinct(final(self)@),
            keeps(old(self)@, final(self)@),
            has_session(old(self)@, id) ==> r is None && final(self)@ == old(self)@,
            !has_session(old(self)@, id) ==> r == Some(id) && final(self)@ == old(self)@.push(
                opened(new, id, now),
            ),
    {
        proof {
            use_type_invariant(&*self);
        }
        if self.position(id).is_some() {
            return None;
        }
        let mut rows = Vec::new();
        std::mem::swap(&mut rows, &mut self.rows);
        rows.push(
            OauthSession {
                id,
                client_id: new.client_id,
                user_id: None,
                scopes: new.scopes,
                redirect_uri: new.redirect_uri,
                state: new.state,
                response_type: new.response_type,
                code_challenge: new.code_challenge,
                code_challenge_method: new.code_challenge_method,
                status: ACTIVE,
                consent_granted_at: None,
                created_at: now,
                updated_at: now,
            },
        );
        self.rows = rows;
        Some(id)
    }

    /// The session with the identifier `id`, if there is one.
    pub fn get(&self, id: u128) -> (r: Option<&OauthSession>)
        ensures
            match r {
                Some(s) => s.id == id && self@.contains(*s),
                None => !has_session(self@, id),
            },
    {
        match self.position(id) {
            Some(i) => Some(&self.rows[i]),
            None => None,
        }
    }

    /// Binds a user to the session `id`, on the condition that it has none:
    /// a session that is unknown or has a user is left as it is.
    pub fn bind_user(&mut self, id: u128, user_id: u128, now: i64) -> (r: Result<(), String>)
        ensures
            sessions_distinct(final(self)@),
            keeps(old(self)@, final(self)@),
            match r {
                Ok(_) => exists|i: int|
                    0 <= i < old(self)@.len() && old(self)@[i].id == id && old(self)@[i].user_id
                        is None && final(self)@ == old(self)@.update(
                        i,
                        OauthSession { user_id: Some(user_id), updated_at: now, ..old(self)@[i] },
                    ),
                Err(e) => e@ == "Failed to update session"@ && final(self)@ == old(self)@ && forall|
                    i: int,
                |
                    0 <= i < old(self)@.len() && old(self)@[i].id == id ==> old(self)@[i].user_id
                        is Some,
            },
    {
        proof {
            use_type_invariant(&*self);
        }
        let Some(i) = self.position(id) else {
            return Err("Failed to update session".to_owned());
        };
        if self.rows[i].user_id.is_some() {
            assert forall|j: int| 0 <= j < self@.len() && self@[j].id == id implies self@[j].user_id
                is Some by {
                if j < i {
                    assert(self@[j].id != self@[i as int].id);
                } else if i < j {
                    assert(self@[i as int].id != self@[j].id);
                }
            }
            return Err("Failed to update session".to_owned());
        }
        let ghost before = self.rows@;
        let mut rows = Vec::new();
        std::mem::swap(&mut rows, &mut self.rows);
        let mut row = rows.remove(i);
        row.user_id = Some(user_id);
        row.updated_at = now;
        rows.insert(i, row);
        assert(rows@ =~= before.update(i as int, row));
        self.rows = rows;
        Ok(())
    }

    /// Records on the session `id` that consent stands as of `at`.
    pub fn grant_consent(&mut self, id: u128, at: i64) -> (r: Result<(), String>)
        ensures
            sessions_distinct(final(self)@),
            keeps(old(self)@, final(self)@),
            match r {
                Ok(_) => exists|i: int|
                    0 <= i < old(self)@.len() && old(self)@[i].id == id && final(self)@ == old(
                        self,
                    )@.update(
                        i,
                        OauthSession {
                            consent_granted_at: Some(at),
                            updated_at: at,
                            ..old(self)@[i]
                        },
                    ),
                Err(e) => e@ == "Failed to update session"@ && final(self)@ == old(self)@
                    && !has_session(old(self)@, id),
            },
    {
        proof {
            use_type_invariant(&*self);
        }
        let Some(i) = self.position(id) else {
            return Err("Failed to update session".to_owned());
        };
        let ghost before = self.rows@;
        let mut rows = Vec::new();
        std::mem::swap(&mut rows, &mut self.rows);
        let mut row = rows.remove(i);
        row.consent_granted_at = Some(at);
        row.updated_at = at;
        rows.insert(i, row);
        assert(rows@ =~= before.update(i as int, row));
        self.rows = rows;
        Ok(())
    }

    /// Records a confirmed consent on the session `id`: its scopes become
    /// `scopes`, and consent stands as of `at`.
    pub fn confirm_consent(&mut self, id: u128, scopes: Vec<String>, at: i64) -> (r: Result<
        (),
        String,
    >)
        ensures
            sessions_distinct(final(self)@),
            keeps(old(self)@, final(self)@),
            match r {
                Ok(_) => exists|i: int|
                    0 <= i < old(self)@.len() && old(self)@[i].id == id && final(self)@ == old(
                        self,
                    )@.update(
                        i,
                        OauthSession {
                            consent_granted_at: Some(at),
                            scopes: scopes,
                            updated_at: at,
                            ..old(self)@[i]
                        },
                    ),
                Err(e) => e@ == "Failed to update session"@ && final(self)@ == old(self)@
                    && !has_session(old(self)@, id),
            },
    {
        proof {
            use_type_invariant(&*self);
        }
        let Some(i) = self.position(id) else {
            return Err("Failed to update session".to_owned());
        };
        let ghost before = self.rows@;
        let mut rows = Vec::new();
        std::mem::swap(&mut rows, &mut self.rows);
        let mut row = rows.remove(i);
        row.consent_granted_at = Some(at);
        row.scopes = scopes;
        row.updated_at = at;
        rows.insert(i, row);
        assert(rows@ =~= before.update(i as int, row));
        self.rows = rows;
        Ok(())
    }
}

impl TokenStore {
    /// The token rows stored, in the order they were created.
    pub closed spec fn view(&self) -> Seq<OauthToken> {
        self.rows@
    }

    #[verifier::type_invariant]
    spec fn wf(&self) -> bool {
        tokens_distinct(self.rows@)
    }

    pub fn new() -> (r: Self)
        ensures
            r@.len() == 0,
    {
        TokenStore { rows: Vec::new() }
    }

    fn position(&self, id: u128) -> (r: Option<usize>)
        ensures
            match r {
                Some(i) => i < self@.len() && self@[i as int].id == id,
                None => !has_token(self@, id),
            },
    {
        let mut i: usize = 0;
        while i < self.rows.len()
            invariant
                i <= self.rows@.len(),
                forall|j: int| 0 <= j < i ==> self.rows@[j].id != id,
            decreases self.rows@.len() - i,
        {
            if self.rows[i].id == id {
                return Some(i);
            }
            i = i + 1;
        }
        None
    }

    fn refresh_position(&self, digest: &str, skip: Option<usize>) -> (r: Option<usize>)
        ensures
            match r {
                Some(i) => i < self@.len() && self@[i as int].refresh_token@ == digest@ && Some(i)
                    != skip,
                None => forall|j: int|
                    0 <= j < self@.len() && !is_skipped(skip, j) ==> self@[j].refresh_token@
                        != digest@,
            },
    {
        let mut i: usize = 0;
        while i < self.rows.len()
            invariant
                i <= self.rows@.len(),
                forall|j: int|
                    0 <= j < i && !is_skipped(skip, j) ==> self.rows@[j].refresh_token@
                        != digest@,
            decreases self.rows@.len() - i,
        {
            if Some(i) != skip && same_text(self.rows[i].refresh_token.as_str(), digest) {
                return Some(i);
            }
            i = i + 1;
        }
        None
    }

    fn access_position(&self, digest: &str, skip: Option<usize>) -> (r: Option<usize>)
        ensures
            match r {
                Some(i) => i < self@.len() && self@[i as int].access_token@ == digest@ && Some(i)
                    != skip,
                None => forall|j: int|
                    0 <= j < self@.len() && !is_skipped(skip, j) ==> self@[j].access_token@
                        != digest@,
            },
    {
        let mut i: usize = 0;
        while i < self.rows.len()
            invariant
                i <= self.rows@.len(),
                forall|j: int|
                    0 <= j < i && !is_skipped(skip, j) ==> self.rows@[j].access_token@
                        != digest@,
            decreases self.rows@.len() - i,
        {
            if Some(i) != skip && same_text(self.rows[i].access_token.as_str(), digest) {
                return Some(i);
            }
            i = i + 1;
        }
        None
    }

    /// Creates a row under `id`, unless the identifier or one of the digests
    /// is already kept.
    pub fn insert(&mut self, new: NewToken, id: u128, now: i64) -> (r: bool)
        ensures
            tokens_distinct(final(self)@),
            r == !(has_token(old(self)@, id) || has_refresh_digest(
                old(self)@,
                new.refresh_token@,
            ) || has_access_digest(old(self)@, new.access_token@)),
            r ==> final(self)@ == old(self)@.push(recorded(new, id, now)),
            !r ==> final(self)@ == old(self)@,
    {
        proof {
            use_type_invariant(&*self);
        }
        if self.position(id).is_some() {
            return false;
        }
        if self.refresh_position(new.refresh_token.as_str(), None).is_some() {
            return false;
        }
        if self.access_position(new.access_token.as_str(), None).is_some() {
            return false;
        }
        let ghost before = self.rows@;
        proof {
            assert(!has_token(before, id));
            assert(!has_refresh_digest(before, new.refresh_token@)) by {
                assert forall|j: int| 0 <= j < before.len() implies before[j].refresh_token@
                    != new.refresh_token@ by {
                    assert(!is_skipped(None, j));
                }
            }
            assert(!has_access_digest(before, new.access_token@)) by {
                assert forall|j: int| 0 <= j < before.len() implies before[j].access_token@
                    != new.access_token@ by {
                    assert(!is_skipped(None, j));
                }
            }
        }
        let mut rows = Vec::new();
        std::mem::swap(&mut rows, &mut self.rows);
        rows.push(
            OauthToken {
                id,
                session_id: new.session_id,
                access_token: new.access_token,
                refresh_token: new.refresh_token,
                status: ACTIVE,
                created_at: now,
                updated_at: now,
            },
        );
        proof {
            let n = before.len() as int;
            assert forall|i: int, j: int| 0 <= i < j < rows@.len() implies rows@[i].id
                != rows@[j].id && rows@[i].refresh_token@ != rows@[j].refresh_token@
                && rows@[i].access_token@ != rows@[j].access_token@ by {
                if j == n {
                    assert(before[i] == rows@[i]);
                    assert(before[i].id != id);
                    assert(before[i].refresh_token@ != new.refresh_token@);
                    assert(before[i].access_token@ != new.access_token@);
                } else {
                    assert(before[i] == rows@[i] && before[j] == rows@[j]);
                }
            }
        }
        self.rows = rows;
        true
    }

    /// The row kept under the refresh digest `rf`, if there is one.
    pub fn get_by_refresh_token(&self, rf: &str) -> (r: Option<&OauthToken>)
        ensures
            match r {
                Some(t) => t.refresh_token@ == rf@ && self@.contains(*t),
                None => !has_refresh_digest(self@, rf@),
            },
    {
        match self.refresh_position(rf, None) {
            Some(i) => {
                assert(self@[i as int] == self.rows@[i as int]);
                Some(&self.rows[i])
            },
            None => {
                assert forall|j: int| 0 <= j < self@.len() implies self@[j].refresh_token@
                    != rf@ by {
                    assert(!is_skipped(None, j));
                }
                None
            },
        }
    }

    /// The row kept under the access digest `at`, if there is one.
    pub fn get_by_access_token(&self, at: &str) -> (r: Option<&OauthToken>)
        ensures
            match r {
                Some(t) => t.access_token@ == at@ && self@.contains(*t),
                None => !has_access_digest(self@, at@),
            },
    {
        match self.access_position(at, None) {
            Some(i) => {
                assert(self@[i as int] == self.rows@[i as int]);
                Some(&self.rows[i])
            },
            None => {
                assert forall|j: int| 0 <= j < self@.len() implies self@[j].access_token@
                    != at@ by {
                    assert(!is_skipped(None, j));
                }
                None
            },
        }
    }

    /// Overwrites both digests of the row `id` in one step. Nothing changes
    /// where the row is unknown or another row holds one of the digests.
    pub fn rotate(&mut self, id: u128, access: String, refresh: String, now: i64) -> (r: bool)
        ensures
            tokens_distinct(old(self)@),
            tokens_distinct(final(self)@),
            r ==> exists|i: int|
                0 <= i < old(self)@.len() && old(self)@[i].id == id && can_rotate(
                    old(self)@,
                    i,
                    access@,
                    refresh@,
                ) && final(self)@ == rotated(old(self)@, i, access, refresh, now),
            !r ==> final(self)@ == old(self)@ && forall|i: int|
                0 <= i < old(self)@.len() && old(self)@[i].id == id ==> !can_rotate(
                    old(self)@,
                    i,
                    access@,
                    refresh@,
                ),
    {
        proof {
            use_type_invariant(&*self);
        }
        let Some(i) = self.position(id) else {
            return false;
        };
        proof {
            assert forall|k: int| 0 <= k < self@.len() && self@[k].id == id implies k == i by {
                if k < i {
                    assert(self@[k].id != self@[i as int].id);
                } else if i < k {
                    assert(self@[i as int].id != self@[k].id);
                }
            }
        }
        if let Some(j) = self.refresh_position(refresh.as_str(), Some(i)) {
            assert(!can_rotate(self@, i as int, access@, refresh@));
            return false;
        }
        if let Some(j) = self.access_position(access.as_str(), Some(i)) {
            assert(!can_rotate(self@, i as int, access@, refresh@));
            return false;
        }
        let ghost before = self.rows@;
        assert(can_rotate(before, i as int, access@, refresh@)) by {
            assert forall|j: int| 0 <= j < before.len() && j != i implies before[j].refresh_token@
                != refresh@ && before[j].access_token@ != access@ by {
                assert(!is_skipped(Some(i), j));
            }
        }
        let mut rows = Vec::new();
        std::mem::swap(&mut rows, &mut self.rows);
        let mut row = rows.remove(i);
        row.access_token = access;
        row.refresh_token = refresh;
        row.updated_at = now;
        rows.insert(i, row);
        proof {
            assert(rows@ =~= rotated(before, i as int, access, refresh, now));
            assert forall|a: int, b: int| 0 <= a < b < rows@.len() implies rows@[a].id
                != rows@[b].id && rows@[a].refresh_token@ != rows@[b].refresh_token@
                && rows@[a].access_token@ != rows@[b].access_token@ by {
                assert(before[a].id != before[b].id);
                if a != i && b != i {
                    assert(before[a].refresh_token@ != before[b].refresh_token@);
                }
            }
        }
        self.rows = rows;
        true
    }
}

/// The consent that `new` becomes when it is stored under `id` at `now`.
pub open spec fn granted(new: NewConsent, id: u128, now: i64) -> OauthConsent {
    OauthConsent {
        id,
        client_id: new.client_id,
        user_id: new.user_id,
        scopes: new.scopes,
        status: ACTIVE,
        created_at: now,
        updated_at: now,
    }
}

/// Whether some consent of `rows` has the identifier `id`.
pub open spec fn has_consent(rows: Seq<OauthConsent>, id: u128) -> bool {
    exists|i: int| 0 <= i < rows.len() && rows[i].id == id
}

/// Whether `user_id` has consented to the client `client_id` in `rows`.
pub open spec fn has_consented(rows: Seq<OauthConsent>, client_id: Seq<char>, user_id: u128) -> bool {
    exists|i: int| 0 <= i < rows.len() && rows[i].client_id@ == client_id && rows[i].user_id == user_id
}

/// Whether a client is registered under `slug` in `rows`.
pub open spec fn has_slug(rows: Seq<OauthClient>, slug: Seq<char>) -> bool {
    exists|i: int| 0 <= i < rows.len() && rows[i].slug@ == slug
}

/// The consent store.
pub struct ConsentStore {
    rows: Vec<OauthConsent>,
}

/// The client registry.
pub struct ClientRegistry {
    rows: Vec<OauthClient>,
}

impl ConsentStore {
    /// The consents stored, in the order they were given.
    pub closed spec fn view(&self) -> Seq<OauthConsent> {
        self.rows@
    }

    pub fn new() -> (r: Self)
        ensures
            r@.len() == 0,
    {
        ConsentStore { rows: Vec::new() }
    }

    /// Records a consent under `id`, unless the identifier is taken.
    pub fn insert(&mut self, new: NewConsent, id: u128, now: i64) -> (r: Option<u128>)
        ensures
            has_consent(old(self)@, id) ==> r is None && final(self)@ == old(self)@,
            !has_consent(old(self)@, id) ==> r == Some(id) && final(self)@ == old(self)@.push(
                granted(new, id, now),
            ),
    {
        if self.get(id).is_some() {
            return None;
        }
        self.rows.push(
            OauthConsent {
                id,
                client_id: new.client_id,
                user_id: new.user_id,
                scopes: new.scopes,
                status: ACTIVE,
                created_at: now,
                updated_at: now,
            },
        );
        Some(id)
    }

    /// The consent with the identifier `id`, if there is one.
    pub fn get(&self, id: u128) -> (r: Option<&OauthConsent>)
        ensures
            match r {
                Some(c) => c.id == id && self@.contains(*c),
                None => !has_consent(self@, id),
            },
    {
        let mut i: usize = 0;
        while i < self.rows.len()
            invariant
                i <= self.rows@.len(),
                forall|j: int| 0 <= j < i ==> self.rows@[j].id != id,
            decreases self.rows@.len() - i,
        {
            if self.rows[i].id == id {
                assert(self@[i as int] == self.rows@[i as int]);
                return Some(&self.rows[i]);
            }
            i = i + 1;
        }
        None
    }

    /// The first consent of `user_id` to the client `client_id`, or the
    /// store's "not found" message.
    pub fn get_by_client_and_user_id(&self, client_id: &str, user_id: u128) -> (r: Result<
        &OauthConsent,
        String,
    >)
        ensures
            match r {
                Ok(c) => c.client_id@ == client_id@ && c.user_id == user_id && self@.contains(*c),
                Err(e) => e@ == "Consent not found"@ && !has_consented(self@, client_id@, user_id),
            },
    {
        let mut i: usize = 0;
        while i < self.rows.len()
            invariant
                i <= self.rows@.len(),
                forall|j: int|
                    0 <= j < i ==> !(self.rows@[j].client_id@ == client_id@ && self.rows@[j].user_id
                        == user_id),
            decreases self.rows@.len() - i,
        {
            if self.rows[i].user_id == user_id && same_text(
                self.rows[i].client_id.as_str(),
                client_id,
            ) {
                assert(self@[i as int] == self.rows@[i as int]);
                return Ok(&self.rows[i]);
            }
            i = i + 1;
        }
        Err("Consent not found".to_owned())
    }
}

impl ClientRegistry {
    /// The clients registered, in the order they were.
    pub closed spec fn view(&self) -> Seq<OauthClient> {
        self.rows@
    }

    pub fn new() -> (r: Self)
        ensures
            r@.len() == 0,
    {
        ClientRegistry { rows: Vec::new() }
    }

    /// Registers a client, unless its public identifier is taken.
    pub fn register(&mut self, client: OauthClient) -> (r: bool)
        ensures
            r == !has_slug(old(self)@, client.slug@),
            r ==> final(self)@ == old(self)@.push(client),
            !r ==> final(self)@ == old(self)@,
    {
        if self.get_by_slug(client.slug.as_str()).is_some() {
            return false;
        }
        self.rows.push(client);
        true
    }

    /// The first client registered under `slug`, if there is one.
    pub fn get_by_slug(&self, slug: &str) -> (r: Option<&OauthClient>)
        ensures
            match r {
                Some(c) => c.slug@ == slug@ && self@.contains(*c),
                None => !has_slug(self@, slug@),
            },
    {
        let mut i: usize = 0;
        while i < self.rows.len()
            invariant
                i <= self.rows@.len(),
                forall|j: int| 0 <= j < i ==> self.rows@[j].slug@ != slug@,
            decreases self.rows@.len() - i,
        {
            if same_text(self.rows[i].slug.as_str(), slug) {
                assert(self@[i as int] == self.rows@[i as int]);
                return Some(&self.rows[i]);
            }
            i = i + 1;
        }
        None
    }

    /// The first client registered under `slug` with the secret `secret`.
    /// An unknown client and a wrong secret give the same answer.
    pub fn get_by_slug_secret(&self, slug: &str, secret: &str) -> (r: Option<&OauthClient>)
        ensures
            match r {
                Some(c) => c.slug@ == slug@ && c.secret@ == secret@ && self@.contains(*c),
                None => forall|i: int|
                    0 <= i < self@.len() ==> !(self@[i].slug@ == slug@ && self@[i].secret@
                        == secret@),
            },
    {
        let mut i: usize = 0;
        while i < self.rows.len()
            invariant
                i <= self.rows@.len(),
                forall|j: int|
                    0 <= j < i ==> !(self.rows@[j].slug@ == slug@ && self.rows@[j].secret@
                        == secret@),
            decreases self.rows@.len() - i,
        {
            if same_text(self.rows[i].slug.as_str(), slug) && same_text(
                self.rows[i].secret.as_str(),
                secret,
            ) {
                assert(self@[i as int] == self.rows@[i as int]);
                return Some(&self.rows[i]);
            }
            i = i + 1;
        }
        None
    }
}

} // verus!
