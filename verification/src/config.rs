//! Launcher settings and player accounts.
use vstd::prelude::*;
use crate::api::{MinecraftLoginResponse, MinecraftProfile, TokenResponse};
use crate::launcher::{join_strings, join_with};
use crate::text::{concat, split_whitespace, split_ws, spec_trim, strs_view, trim};

verus! {

/// How an account signs in.
#[derive(PartialEq, Eq, Structural, Clone, Copy, Debug)]
pub enum AccountType {
    Microsoft,
    Offline,
}

/// Tokens of a Microsoft account; `expires_at` is a Unix time in seconds.
pub struct MicrosoftAuth {
    pub access_token: String,
    pub refresh_token: String,
    pub expires_at: Option<i64>,
}

/// A player profile.
pub struct Account {
    pub uuid: String,
    pub username: String,
    pub account_type: AccountType,
    pub microsoft_auth: Option<MicrosoftAuth>,
}

/// The launcher's settings and accounts. Paths are kept as text.
pub struct Config {
    pub game_dir: String,
    pub java_path: String,
    pub jvm_args: Vec<String>,
    pub accounts: Vec<Account>,
    pub active_account_uuid: Option<String>,
    pub active_instance: Option<String>,
}

/// A lower-case hexadecimal digit.
pub open spec fn is_lower_hex_digit(c: char) -> bool {
    ('0' <= c && c <= '9') || ('a' <= c && c <= 'f')
}

/// The simple form of a UUID: 32 lower-case hexadecimal digits.
pub open spec fn is_simple_uuid(s: Seq<char>) -> bool {
    s.len() == 32 && forall|i: int| 0 <= i < s.len() ==> is_lower_hex_digit(#[trigger] s[i])
}

/// Calls `uuid::Uuid::new_v4` and writes the result in its simple form
/// (`Uuid::simple`, then `to_string`): 32 lower-case hexadecimal digits.
/// Which digits come out depends on the system's random source; the crate
/// panics when that source fails.
#[verifier::external_body]
fn random_simple_uuid() -> (r: String)
    ensures
        is_simple_uuid(r@),
{
    uuid::Uuid::new_v4().simple().to_string()
}

/// Calls `chrono::Utc::now` and gives its Unix time in seconds
/// (`DateTime::timestamp`). The value is the system clock's; it is never
/// negative, since `Utc::now` stops with a panic on a clock before 1970.
#[verifier::external_body]
fn unix_time_now() -> (r: i64)
    ensures
        r >= 0,
{
    chrono::Utc::now().timestamp()
}

/// The expiry time of a session that starts at `now` and lasts `seconds`
/// (the latest representable time when that lies beyond it).
pub open spec fn spec_expiry(now: i64, seconds: u64) -> i64 {
    if now + seconds <= i64::MAX {
        (now + seconds) as i64
    } else {
        i64::MAX
    }
}

fn expiry(now: i64, seconds: u64) -> (r: i64)
    ensures
        r == spec_expiry(now, seconds),
{
    let total: i128 = now as i128 + seconds as i128;
    if total > 9223372036854775807i128 {
        9223372036854775807i64
    } else {
        total as i64
    }
}

impl MicrosoftAuth {
    pub fn duplicate(&self) -> (r: MicrosoftAuth)
        ensures
            r == *self,
    {
        MicrosoftAuth {
            access_token: self.access_token.clone(),
            refresh_token: self.refresh_token.clone(),
            expires_at: self.expires_at,
        }
    }

    /// The tokens of a sign-in that completes now: the Minecraft access
    /// token, the Microsoft refresh token, and the expiry the login reply
    /// gives, counted from the current time.
    pub fn from_login_now(login: MinecraftLoginResponse, tokens: TokenResponse) -> (r: MicrosoftAuth)
        ensures
            r.access_token == login.access_token,
            r.refresh_token == tokens.refresh_token,
            exists|now: i64| now >= 0 && r.expires_at == Some(spec_expiry(now, login.expires_in)),
    {
        let now = unix_time_now();
        let at = expiry(now, login.expires_in);
        MicrosoftAuth {
            access_token: login.access_token,
            refresh_token: tokens.refresh_token,
            expires_at: Some(at),
        }
    }

    /// Whether the session has expired by the current time; a session
    /// without a known expiry always has.
    pub fn is_expired_now(&self) -> (r: bool)
        ensures
            exists|now: i64| now >= 0 && r == self.spec_is_expired(now),
            self.expires_at is None ==> r,
    {
        let now = unix_time_now();
        self.is_expired(now)
    }

    /// The session counts as expired when its expiry time is unknown or lies
    /// before `now`.
    pub open spec fn spec_is_expired(self, now: i64) -> bool {
        match self.expires_at {
            Some(exp) => exp < now,
            None => true,
        }
    }

    pub fn is_expired(&self, now: i64) -> (r: bool)
        ensures
            r == self.spec_is_expired(now),
    {
        match self.expires_at {
            Some(exp) => exp < now,
            None => true,
        }
    }
}

impl Account {
    pub fn duplicate(&self) -> (r: Account)
        ensures
            r == *self,
    {
        let auth = match &self.microsoft_auth {
            Some(a) => Some(a.duplicate()),
            None => None,
        };
        Account {
            uuid: self.uuid.clone(),
            username: self.username.clone(),
            account_type: self.account_type,
            microsoft_auth: auth,
        }
    }

    /// A new offline profile.
    pub fn offline(uuid: String, username: String) -> (r: Account)
        ensures
            r.uuid == uuid,
            r.username == username,
            r.account_type == AccountType::Offline,
            r.microsoft_auth is None,
    {
        Account { uuid, username, account_type: AccountType::Offline, microsoft_auth: None }
    }

    /// The account a Microsoft sign-in that completes now yields.
    pub fn from_microsoft_login_now(
        profile: MinecraftProfile,
        login: MinecraftLoginResponse,
        tokens: TokenResponse,
    ) -> (r: Account)
        ensures
            r.uuid == profile.id,
            r.username == profile.name,
            r.account_type == AccountType::Microsoft,
            r.microsoft_auth matches Some(a) && a.access_token == login.access_token
                && a.refresh_token == tokens.refresh_token && exists|now: i64|
                now >= 0 && a.expires_at == Some(spec_expiry(now, login.expires_in)),
    {
        Account {
            uuid: profile.id,
            username: profile.name,
            account_type: AccountType::Microsoft,
            microsoft_auth: Some(MicrosoftAuth::from_login_now(login, tokens)),
        }
    }

    /// The account that a completed Microsoft sign-in yields: the profile's
    /// id and name, the Minecraft access token, and the Microsoft refresh token.
    pub fn from_microsoft_login(
        profile: MinecraftProfile,
        login: MinecraftLoginResponse,
        tokens: TokenResponse,
        expires_at: Option<i64>,
    ) -> (r: Account)
        ensures
            r.uuid == profile.id,
            r.username == profile.name,
            r.account_type == AccountType::Microsoft,
            r.microsoft_auth == Some(
                MicrosoftAuth {
                    access_token: login.access_token,
                    refresh_token: tokens.refresh_token,
                    expires_at,
                },
            ),
    {
        Account {
            uuid: profile.id,
            username: profile.name,
            account_type: AccountType::Microsoft,
            microsoft_auth: Some(
                MicrosoftAuth {
                    access_token: login.access_token,
                    refresh_token: tokens.refresh_token,
                    expires_at,
                },
            ),
        }
    }
}

/// The index of the first account satisfying `p`, or -1 when none does.
pub open spec fn first_index(accs: Seq<Account>, p: spec_fn(Account) -> bool) -> int
    decreases accs.len(),
{
    if accs.len() == 0 {
        -1
    } else if p(accs[0]) {
        0
    } else {
        let k = first_index(accs.drop_first(), p);
        if k < 0 {
            -1
        } else {
            k + 1
        }
    }
}

pub proof fn lemma_first_index(accs: Seq<Account>, p: spec_fn(Account) -> bool)
    ensures
        -1 <= first_index(accs, p) < accs.len(),
        first_index(accs, p) >= 0 ==> p(accs[first_index(accs, p)]),
        first_index(accs, p) >= 0 ==> forall|j: int| 0 <= j < first_index(accs, p) ==> !p(accs[j]),
        first_index(accs, p) < 0 ==> forall|j: int| 0 <= j < accs.len() ==> !p(accs[j]),
    decreases accs.len(),
{
    if accs.len() > 0 && !p(accs[0]) {
        lemma_first_index(accs.drop_first(), p);
        assert forall|j: int| 1 <= j < accs.len() implies accs[j] == accs.drop_first()[j - 1] by {}
    }
}

pub proof fn lemma_first_index_is(accs: Seq<Account>, p: spec_fn(Account) -> bool, k: int)
    requires
        0 <= k <= accs.len(),
        k < accs.len() ==> p(accs[k]),
        forall|j: int| 0 <= j < k ==> !p(accs[j]),
    ensures
        first_index(accs, p) == (if k < accs.len() { k } else { -1 }),
    decreases k,
{
    if k > 0 {
        let d = accs.drop_first();
        assert forall|j: int| 0 <= j < k - 1 implies !p(d[j]) by {
            assert(d[j] == accs[j + 1]);
        }
        assert(!p(accs[0]));
        lemma_first_index_is(d, p, k - 1);
    }
}

pub open spec fn uuid_pred(uuid: Seq<char>) -> spec_fn(Account) -> bool {
    |a: Account| a.uuid@ == uuid
}

pub open spec fn keep_pred(uuid: Seq<char>) -> spec_fn(Account) -> bool {
    |a: Account| a.uuid@ != uuid
}

pub open spec fn name_or_uuid_pred(q: Seq<char>) -> spec_fn(Account) -> bool {
    |a: Account| a.username@ == q || a.uuid@ == q
}

pub open spec fn offline_pred(name: Seq<char>) -> spec_fn(Account) -> bool {
    |a: Account| a.username@ == name && a.account_type == AccountType::Offline
}

pub open spec fn microsoft_pred() -> spec_fn(Account) -> bool {
    |a: Account| a.account_type == AccountType::Microsoft
}

/// The first index of an account with this uuid, or -1.
pub open spec fn uuid_index(accs: Seq<Account>, uuid: Seq<char>) -> int {
    first_index(accs, uuid_pred(uuid))
}

/// Account list after adding `a`: it takes the place of the account with the
/// same uuid, or goes to the end.
pub open spec fn spec_upsert_account(accs: Seq<Account>, a: Account) -> Seq<Account> {
    let k = uuid_index(accs, a.uuid@);
    if k >= 0 {
        accs.update(k, a)
    } else {
        accs.push(a)
    }
}

/// Account list without the accounts of this uuid.
pub open spec fn spec_remove_account(accs: Seq<Account>, uuid: Seq<char>) -> Seq<Account> {
    accs.filter(keep_pred(uuid))
}

/// The first account of this username or this uuid, or -1.
pub open spec fn name_or_uuid_index(accs: Seq<Account>, q: Seq<char>) -> int {
    first_index(accs, name_or_uuid_pred(q))
}

/// The first offline account of this username, or -1.
pub open spec fn offline_index(accs: Seq<Account>, name: Seq<char>) -> int {
    first_index(accs, offline_pred(name))
}

/// The first Microsoft account, or -1.
pub open spec fn microsoft_index(accs: Seq<Account>) -> int {
    first_index(accs, microsoft_pred())
}

impl Config {
    /// No two accounts share a uuid.
    pub open spec fn wf(self) -> bool {
        forall|i: int, j: int|
            0 <= i < j < self.accounts@.len() ==> self.accounts@[i].uuid@
                != self.accounts@[j].uuid@
    }

    /// The active account: the account whose uuid is the active one.
    pub open spec fn spec_active_index(self) -> int {
        match self.active_account_uuid {
            Some(u) => uuid_index(self.accounts@, u@),
            None => -1,
        }
    }

    /// Index of the first account with this uuid.
    fn find_uuid(&self, uuid: &String) -> (r: Option<usize>)
        ensures
            match r {
                Some(i) => i as int == uuid_index(self.accounts@, uuid@),
                None => uuid_index(self.accounts@, uuid@) < 0,
            },
    {
        let ghost p = uuid_pred(uuid@);
        let n = self.accounts.len();
        for i in 0..n
            invariant
                n == self.accounts@.len(),
                p == uuid_pred(uuid@),
                forall|j: int| 0 <= j < i ==> !p(#[trigger] self.accounts@[j]),
        {
            if self.accounts[i].uuid == *uuid {
                proof {
                    lemma_first_index_is(self.accounts@, p, i as int);
                }
                return Some(i);
            }
        }
        proof {
            lemma_first_index_is(self.accounts@, p, n as int);
        }
        None
    }

    /// The active account, if the active uuid names one.
    pub fn get_active_account(&self) -> (r: Option<&Account>)
        ensures
            self.spec_active_index() < 0 ==> r is None,
            self.spec_active_index() >= 0 ==> self.spec_active_index() < self.accounts@.len() && r
                == Some(&self.accounts@[self.spec_active_index()]),
    {
        match &self.active_account_uuid {
            Some(u) => {
                proof {
                    lemma_first_index(self.accounts@, uuid_pred(u@));
                }
                match self.find_uuid(u) {
                    Some(i) => Some(&self.accounts[i]),
                    None => None,
                }
            },
            None => None,
        }
    }

    /// Adds an account, replacing the account that has the same uuid.
    pub fn add_account(&mut self, account: Account)
        ensures
            old(self).wf() ==> final(self).wf(),
            final(self).accounts@ == spec_upsert_account(old(self).accounts@, account),
            final(self).game_dir == old(self).game_dir,
            final(self).java_path == old(self).java_path,
            final(self).jvm_args == old(self).jvm_args,
            final(self).active_account_uuid == old(self).active_account_uuid,
            final(self).active_instance == old(self).active_instance,
    {
        proof {
            lemma_first_index(self.accounts@, uuid_pred(account.uuid@));
        }
        match self.find_uuid(&account.uuid) {
            Some(i) => {
                self.accounts.set(i, account);
            },
            None => {
                self.accounts.push(account);
            },
        }
    }

    /// Removes the accounts of this uuid; clears the active account if it was
    /// one of them.
    pub fn remove_account(&mut self, uuid: &String)
        ensures
            old(self).wf() ==> final(self).wf(),
            final(self).accounts@ == spec_remove_account(old(self).accounts@, uuid@),
            final(self).active_account_uuid == (match old(self).active_account_uuid {
                Some(u) => if u@ == uuid@ {
                    None
                } else {
                    Some(u)
                },
                None => None,
            }),
            final(self).game_dir == old(self).game_dir,
            final(self).java_path == old(self).java_path,
            final(self).jvm_args == old(self).jvm_args,
            final(self).active_instance == old(self).active_instance,
    {
        let ghost pred = keep_pred(uuid@);
        let ghost orig = self.accounts@;
        let mut kept: Vec<Account> = Vec::new();
        let n = self.accounts.len();
        for i in 0..n
            invariant
                n == orig.len(),
                self.accounts@ == orig,
                pred == keep_pred(uuid@),
                kept@ == orig.take(i as int).filter(pred),
        {
            assert(orig.take(i + 1).drop_last() =~= orig.take(i as int));
            assert(orig.take(i + 1).last() == orig[i as int]);
            reveal_with_fuel(Seq::filter, 1);
            if self.accounts[i].uuid != *uuid {
                let a = self.accounts[i].duplicate();
                kept.push(a);
            }
        }
        assert(orig.take(n as int) =~= orig);
        proof {
            if old(self).wf() {
                lemma_filter_keeps_distinct(orig, pred);
            }
        }
        self.accounts = kept;
        let clear = match &self.active_account_uuid {
            Some(u) => *u == *uuid,
            None => false,
        };
        if clear {
            self.active_account_uuid = None;
        }
    }

    /// The first account whose username or uuid is `name_or_uuid`.
    pub fn find_account(&self, name_or_uuid: &String) -> (r: Option<&Account>)
        ensures
            name_or_uuid_index(self.accounts@, name_or_uuid@) < 0 ==> r is None,
            name_or_uuid_index(self.accounts@, name_or_uuid@) >= 0 ==> r == Some(
                &self.accounts@[name_or_uuid_index(self.accounts@, name_or_uuid@)],
            ),
    {
        let ghost q = name_or_uuid@;
        let ghost p = name_or_uuid_pred(q);
        let n = self.accounts.len();
        for i in 0..n
            invariant
                n == self.accounts@.len(),
                name_or_uuid@ == q,
                p == name_or_uuid_pred(q),
                forall|j: int| 0 <= j < i ==> !p(#[trigger] self.accounts@[j]),
        {
            let a = &self.accounts[i];
            if a.username == *name_or_uuid || a.uuid == *name_or_uuid {
                proof {
                    lemma_first_index_is(self.accounts@, p, i as int);
                }
                return Some(a);
            }
        }
        proof {
            lemma_first_index_is(self.accounts@, p, n as int);
        }
        None
    }

    /// "name (Offline|Microsoft)" for the active account.
    pub open spec fn spec_active_account_desc(self) -> Seq<char> {
        if self.spec_active_index() >= 0 {
            let a = self.accounts@[self.spec_active_index()];
            a.username@ + " ("@ + (if a.account_type == AccountType::Offline {
                "Offline"@
            } else {
                "Microsoft"@
            }) + ")"@
        } else {
            "None (Please add an account)"@
        }
    }

    /// A line describing the active account.
    pub fn active_account_desc(&self) -> (r: String)
        ensures
            r@ == self.spec_active_account_desc(),
    {
        match self.get_active_account() {
            Some(acc) => {
                let auth_type = match acc.account_type {
                    AccountType::Offline => "Offline",
                    AccountType::Microsoft => "Microsoft",
                };
                let s = concat(acc.username.as_str(), " (");
                let s = concat(s.as_str(), auth_type);
                concat(s.as_str(), ")")
            },
            None => String::from_str("None (Please add an account)"),
        }
    }

    /// The user name an offline launch plays as: the one asked for, else the
    /// active account's, else "Player".
    pub open spec fn spec_offline_username(self, username_override: Option<String>) -> Seq<
        char,
    > {
        match username_override {
            Some(u) => u@,
            None => if self.spec_active_index() >= 0 {
                self.accounts@[self.spec_active_index()].username@
            } else {
                "Player"@
            },
        }
    }

    /// The account of an offline launch: the first offline account of the
    /// chosen user name, or a new offline account with `fresh_uuid`, which is
    /// then added.
    pub fn resolve_offline_account(
        &mut self,
        username_override: Option<String>,
        fresh_uuid: String,
    ) -> (r: Account)
        ensures
            old(self).wf() ==> final(self).wf(),
            ({
                let name = old(self).spec_offline_username(username_override);
                let k = offline_index(old(self).accounts@, name);
                if k >= 0 {
                    &&& k < old(self).accounts@.len()
                    &&& r == old(self).accounts@[k]
                    &&& final(self).accounts@ == old(self).accounts@
                } else {
                    &&& r.uuid == fresh_uuid
                    &&& r.username@ == name
                    &&& r.account_type == AccountType::Offline
                    &&& r.microsoft_auth is None
                    &&& final(self).accounts@ == spec_upsert_account(old(self).accounts@, r)
                }
            }),
            final(self).active_account_uuid == old(self).active_account_uuid,
            final(self).active_instance == old(self).active_instance,
            final(self).game_dir == old(self).game_dir,
            final(self).java_path == old(self).java_path,
            final(self).jvm_args == old(self).jvm_args,
    {
        let username = match username_override {
            Some(u) => u,
            None => match self.get_active_account() {
                Some(a) => a.username.clone(),
                None => String::from_str("Player"),
            },
        };
        let ghost name = username@;
        assert(name == old(self).spec_offline_username(username_override));
        let ghost p = offline_pred(name);
        let n = self.accounts.len();
        for i in 0..n
            invariant
                n == self.accounts@.len(),
                username@ == name,
                name == old(self).spec_offline_username(username_override),
                *self == *old(self),
                p == offline_pred(name),
                forall|j: int| 0 <= j < i ==> !p(#[trigger] self.accounts@[j]),
        {
            if self.accounts[i].username == username && self.accounts[i].account_type
                == AccountType::Offline {
                proof {
                    lemma_first_index_is(self.accounts@, p, i as int);
                }
                return self.accounts[i].duplicate();
            }
        }
        proof {
            lemma_first_index_is(self.accounts@, p, n as int);
        }
        let acc = Account::offline(fresh_uuid, username);
        let result = acc.duplicate();
        self.add_account(acc);
        result
    }

    /// The account of an online launch: the active account if it is a
    /// Microsoft one, else the first Microsoft account, else the active
    /// account if it is an offline one.
    pub open spec fn spec_online_account_index(self) -> int {
        let act = self.spec_active_index();
        if act >= 0 && self.accounts@[act].account_type == AccountType::Microsoft {
            act
        } else if microsoft_index(self.accounts@) >= 0 {
            microsoft_index(self.accounts@)
        } else if act >= 0 && self.accounts@[act].account_type == AccountType::Offline {
            act
        } else {
            -1
        }
    }

    /// Adds a new offline profile of this name, with a fresh random uuid.
    pub fn add_offline_profile(&mut self, username: String) -> (r: Account)
        ensures
            r.username == username,
            r.account_type == AccountType::Offline,
            r.microsoft_auth is None,
            is_simple_uuid(r.uuid@),
            final(self).accounts@ == spec_upsert_account(old(self).accounts@, r),
            old(self).wf() ==> final(self).wf(),
            final(self).game_dir == old(self).game_dir,
            final(self).java_path == old(self).java_path,
            final(self).jvm_args == old(self).jvm_args,
            final(self).active_account_uuid == old(self).active_account_uuid,
            final(self).active_instance == old(self).active_instance,
    {
        let acc = Account::offline(random_simple_uuid(), username);
        let result = acc.duplicate();
        self.add_account(acc);
        result
    }

    /// The account of an offline launch, a new profile (with a fresh random
    /// uuid) being added when the chosen name has no offline profile yet.
    pub fn offline_launch_account(&mut self, username_override: Option<String>) -> (r: Account)
        ensures
            old(self).wf() ==> final(self).wf(),
            ({
                let name = old(self).spec_offline_username(username_override);
                let k = offline_index(old(self).accounts@, name);
                if k >= 0 {
                    &&& k < old(self).accounts@.len()
                    &&& r == old(self).accounts@[k]
                    &&& final(self).accounts@ == old(self).accounts@
                } else {
                    &&& is_simple_uuid(r.uuid@)
                    &&& r.username@ == name
                    &&& r.account_type == AccountType::Offline
                    &&& r.microsoft_auth is None
                    &&& final(self).accounts@ == spec_upsert_account(old(self).accounts@, r)
                }
            }),
            final(self).active_account_uuid == old(self).active_account_uuid,
            final(self).active_instance == old(self).active_instance,
            final(self).game_dir == old(self).game_dir,
            final(self).java_path == old(self).java_path,
            final(self).jvm_args == old(self).jvm_args,
    {
        let fresh = random_simple_uuid();
        self.resolve_offline_account(username_override, fresh)
    }

    /// Makes the first account whose username or uuid is `name_or_uuid` the
    /// active one; refused when there is none.
    pub fn select_account(&mut self, name_or_uuid: &String) -> (r: Result<(), String>)
        ensures
            old(self).wf() ==> final(self).wf(),
            final(self).accounts == old(self).accounts,
            final(self).game_dir == old(self).game_dir,
            final(self).java_path == old(self).java_path,
            final(self).jvm_args == old(self).jvm_args,
            final(self).active_instance == old(self).active_instance,
            ({
                let k = name_or_uuid_index(old(self).accounts@, name_or_uuid@);
                if k >= 0 {
                    &&& r is Ok
                    &&& k < old(self).accounts@.len()
                    &&& final(self).active_account_uuid == Some(old(self).accounts@[k].uuid)
                } else {
                    &&& r matches Err(e)
                    &&& e@ == "Account '"@ + name_or_uuid@ + "' not found."@
                    &&& final(self).active_account_uuid == old(self).active_account_uuid
                }
            }),
    {
        proof {
            lemma_first_index(self.accounts@, name_or_uuid_pred(name_or_uuid@));
        }
        let found = match self.find_account(name_or_uuid) {
            Some(a) => Some(a.uuid.clone()),
            None => None,
        };
        match found {
            Some(u) => {
                self.active_account_uuid = Some(u);
                Ok(())
            },
            None => {
                let s = concat("Account '", name_or_uuid.as_str());
                Err(concat(s.as_str(), "' not found."))
            },
        }
    }

    /// Removes the account named by `name_or_uuid` (the first whose username
    /// or uuid it is), with every account of its uuid; refused when there is
    /// none. Gives back the account found.
    pub fn remove_named_account(&mut self, name_or_uuid: &String) -> (r: Result<Account, String>)
        ensures
            old(self).wf() ==> final(self).wf(),
            final(self).game_dir == old(self).game_dir,
            final(self).java_path == old(self).java_path,
            final(self).jvm_args == old(self).jvm_args,
            final(self).active_instance == old(self).active_instance,
            ({
                let k = name_or_uuid_index(old(self).accounts@, name_or_uuid@);
                if k >= 0 {
                    let a = old(self).accounts@[k];
                    &&& k < old(self).accounts@.len()
                    &&& r == Ok::<Account, String>(a)
                    &&& final(self).accounts@ == spec_remove_account(old(self).accounts@, a.uuid@)
                    &&& final(self).active_account_uuid == (match old(self).active_account_uuid {
                        Some(u) => if u@ == a.uuid@ {
                            None
                        } else {
                            Some(u)
                        },
                        None => None,
                    })
                } else {
                    &&& r matches Err(e)
                    &&& e@ == "Account '"@ + name_or_uuid@ + "' not found."@
                    &&& *final(self) == *old(self)
                }
            }),
    {
        proof {
            lemma_first_index(self.accounts@, name_or_uuid_pred(name_or_uuid@));
        }
        let found = match self.find_account(name_or_uuid) {
            Some(a) => Some(a.duplicate()),
            None => None,
        };
        match found {
            Some(a) => {
                self.remove_account(&a.uuid);
                Ok(a)
            },
            None => {
                let s = concat("Account '", name_or_uuid.as_str());
                Err(concat(s.as_str(), "' not found."))
            },
        }
    }

    /// Sets the extra JVM arguments from one line of text, split at
    /// whitespace.
    pub fn set_jvm_args(&mut self, text: &str)
        ensures
            strs_view(final(self).jvm_args@) == split_ws(text@),
            final(self).accounts == old(self).accounts,
            final(self).game_dir == old(self).game_dir,
            final(self).java_path == old(self).java_path,
            final(self).active_account_uuid == old(self).active_account_uuid,
            final(self).active_instance == old(self).active_instance,
    {
        self.jvm_args = split_whitespace(text);
    }

    /// A copy of the accounts.
    fn copy_accounts(&self) -> (r: Vec<Account>)
        ensures
            r@ == self.accounts@,
    {
        let mut out: Vec<Account> = Vec::new();
        let n = self.accounts.len();
        for i in 0..n
            invariant
                n == self.accounts@.len(),
                out@ == self.accounts@.take(i as int),
        {
            out.push(self.accounts[i].duplicate());
            assert(out@ =~= self.accounts@.take(i + 1));
        }
        assert(self.accounts@.take(n as int) =~= self.accounts@);
        out
    }

    /// The settings an instance launches with: its own Java executable and
    /// JVM arguments where it sets them, the launcher's otherwise.
    pub fn with_instance_overrides(
        &self,
        java_path: &Option<String>,
        jvm_args: &Option<Vec<String>>,
    ) -> (r: Config)
        ensures
            r.java_path == (match java_path {
                Some(p) => *p,
                None => self.java_path,
            }),
            r.jvm_args@ == (match jvm_args {
                Some(a) => a@,
                None => self.jvm_args@,
            }),
            r.game_dir == self.game_dir,
            r.accounts@ == self.accounts@,
            r.active_account_uuid == self.active_account_uuid,
            r.active_instance == self.active_instance,
    {
        Config {
            game_dir: self.game_dir.clone(),
            java_path: match java_path {
                Some(p) => p.clone(),
                None => self.java_path.clone(),
            },
            jvm_args: match jvm_args {
                Some(a) => a.clone(),
                None => self.jvm_args.clone(),
            },
            accounts: self.copy_accounts(),
            active_account_uuid: self.active_account_uuid.clone(),
            active_instance: self.active_instance.clone(),
        }
    }

    /// After the instance `id` is deleted: it stops being the active
    /// instance if it was. Tells whether the settings changed.
    pub fn forget_instance(&mut self, id: &str) -> (r: bool)
        ensures
            r == (old(self).active_instance matches Some(a) && a@ == id@),
            r ==> final(self).active_instance is None,
            !r ==> final(self).active_instance == old(self).active_instance,
            final(self).accounts == old(self).accounts,
            final(self).active_account_uuid == old(self).active_account_uuid,
            final(self).game_dir == old(self).game_dir,
            final(self).java_path == old(self).java_path,
            final(self).jvm_args == old(self).jvm_args,
    {
        let is_active = match &self.active_instance {
            Some(a) => crate::text::str_eq(a.as_str(), id),
            None => false,
        };
        if is_active {
            self.active_instance = None;
        }
        is_active
    }

    /// The text a settings field starts editing from: the game directory
    /// (field 0), the Java executable (1), the JVM arguments joined by
    /// spaces (2); nothing for other fields.
    pub fn setting_value(&self, field_idx: usize) -> (r: String)
        ensures
            field_idx == 0 ==> r@ == self.game_dir@,
            field_idx == 1 ==> r@ == self.java_path@,
            field_idx == 2 ==> r@ == join_with(strs_view(self.jvm_args@), " "@),
            field_idx > 2 ==> r@.len() == 0,
    {
        if field_idx == 0 {
            self.game_dir.clone()
        } else if field_idx == 1 {
            self.java_path.clone()
        } else if field_idx == 2 {
            join_strings(&self.jvm_args, " ")
        } else {
            String::new()
        }
    }

    /// A settings field edited in the interface, its text trimmed: the game
    /// directory (field 0), the Java executable (1) or the JVM arguments (2);
    /// other fields change nothing.
    pub fn apply_setting(&mut self, field_idx: usize, input: &str)
        ensures
            field_idx == 0 ==> final(self).game_dir@ == spec_trim(input@),
            field_idx != 0 ==> final(self).game_dir == old(self).game_dir,
            field_idx == 1 ==> final(self).java_path@ == spec_trim(input@),
            field_idx != 1 ==> final(self).java_path == old(self).java_path,
            field_idx == 2 ==> strs_view(final(self).jvm_args@) == split_ws(spec_trim(input@)),
            field_idx != 2 ==> final(self).jvm_args == old(self).jvm_args,
            final(self).accounts == old(self).accounts,
            final(self).active_account_uuid == old(self).active_account_uuid,
            final(self).active_instance == old(self).active_instance,
    {
        let val = trim(input);
        if field_idx == 0 {
            self.game_dir = val;
        } else if field_idx == 1 {
            self.java_path = val;
        } else if field_idx == 2 {
            self.set_jvm_args(val.as_str());
        }
    }

    pub fn select_online_account(&self) -> (r: Option<&Account>)
        ensures
            self.spec_online_account_index() < 0 ==> r is None,
            self.spec_online_account_index() >= 0 ==> r == Some(
                &self.accounts@[self.spec_online_account_index()],
            ),
    {
        let active = self.get_active_account();
        if let Some(a) = active {
            if a.account_type == AccountType::Microsoft {
                return Some(a);
            }
        }
        let ghost p = microsoft_pred();
        let n = self.accounts.len();
        for i in 0..n
            invariant
                n == self.accounts@.len(),
                p == microsoft_pred(),
                self.spec_active_index() < 0 ==> active is None,
                self.spec_active_index() >= 0 ==> self.spec_active_index() < self.accounts@.len()
                    && active == Some(&self.accounts@[self.spec_active_index()])
                    && self.accounts@[self.spec_active_index()].account_type
                    != AccountType::Microsoft,
                forall|j: int| 0 <= j < i ==> !p(#[trigger] self.accounts@[j]),
        {
            if self.accounts[i].account_type == AccountType::Microsoft {
                proof {
                    lemma_first_index_is(self.accounts@, p, i as int);
                }
                return Some(&self.accounts[i]);
            }
        }
        proof {
            lemma_first_index_is(self.accounts@, p, n as int);
        }
        active
    }
}

proof fn lemma_filter_keeps_distinct(s: Seq<Account>, pred: spec_fn(Account) -> bool)
    requires
        forall|i: int, j: int| 0 <= i < j < s.len() ==> s[i].uuid@ != s[j].uuid@,
    ensures
        forall|x: int, y: int|
            0 <= x < y < s.filter(pred).len() ==> s.filter(pred)[x].uuid@ != s.filter(
                pred,
            )[y].uuid@,
    decreases s.len(),
{
    reveal_with_fuel(Seq::filter, 1);
    if s.len() > 0 {
        let d = s.drop_last();
        assert forall|i: int, j: int| 0 <= i < j < d.len() implies d[i].uuid@ != d[j].uuid@ by {
            assert(d[i] == s[i] && d[j] == s[j]);
        }
        lemma_filter_keeps_distinct(d, pred);
        let f = s.filter(pred);
        let fd = d.filter(pred);
        if pred(s.last()) {
            assert(f == fd.push(s.last()));
            assert forall|x: int, y: int| 0 <= x < y < f.len() implies f[x].uuid@ != f[y].uuid@ by {
                if y == f.len() - 1 {
                    assert(f[x] == fd[x]);
                    assert(fd.contains(fd[x]));
                    d.lemma_filter_contains_rev(pred, fd[x]);
                    let k = choose|k: int| 0 <= k < d.len() && d[k] == fd[x];
                    assert(s[k] == d[k]);
                    assert(s[s.len() - 1] == s.last());
                } else {
                    assert(f[x] == fd[x] && f[y] == fd[y]);
                }
            }
        } else {
            assert(f == fd);
        }
    }
}

/// Adding an account and then looking up its uuid finds that account.
pub proof fn lemma_add_then_find(accs: Seq<Account>, a: Account)
    ensures
        ({
            let after = spec_upsert_account(accs, a);
            let k = uuid_index(after, a.uuid@);
            0 <= k < after.len() && after[k] == a
        }),
{
    let p = uuid_pred(a.uuid@);
    lemma_first_index(accs, p);
    let k = uuid_index(accs, a.uuid@);
    let after = spec_upsert_account(accs, a);
    if k >= 0 {
        assert forall|j: int| 0 <= j < k implies !p(after[j]) by {
            assert(after[j] == accs[j]);
        }
        lemma_first_index_is(after, p, k);
    } else {
        let m = accs.len() as int;
        assert forall|j: int| 0 <= j < m implies !p(after[j]) by {
            assert(after[j] == accs[j]);
        }
        lemma_first_index_is(after, p, m);
    }
}

/// Adding an account leaves every account of another uuid in place.
pub proof fn lemma_add_keeps_others(accs: Seq<Account>, a: Account, i: int)
    requires
        0 <= i < accs.len(),
        accs[i].uuid@ != a.uuid@,
    ensures
        spec_upsert_account(accs, a)[i] == accs[i],
{
    lemma_first_index(accs, uuid_pred(a.uuid@));
}

/// After removing a uuid, no account of that uuid is left.
pub proof fn lemma_remove_then_absent(accs: Seq<Account>, uuid: Seq<char>)
    ensures
        uuid_index(spec_remove_account(accs, uuid), uuid) < 0,
{
    let after = spec_remove_account(accs, uuid);
    let pred = keep_pred(uuid);
    let p = uuid_pred(uuid);
    assert forall|j: int| 0 <= j < after.len() implies !p(after[j]) by {
        accs.lemma_filter_pred(pred, j);
    }
    lemma_first_index_is(after, p, after.len() as int);
}

/// With distinct uuids, looking up the uuid of an account finds that
/// account.
pub proof fn lemma_uuid_index_of_member(accs: Seq<Account>, k: int)
    requires
        0 <= k < accs.len(),
        forall|i: int, j: int| 0 <= i < j < accs.len() ==> accs[i].uuid@ != accs[j].uuid@,
    ensures
        uuid_index(accs, accs[k].uuid@) == k,
{
    let p = uuid_pred(accs[k].uuid@);
    assert forall|j: int| 0 <= j < k implies !p(accs[j]) by {}
    lemma_first_index_is(accs, p, k);
}

/// Selecting an account by its name or uuid makes it the active account.
pub proof fn lemma_selected_account_is_active(c: Config, q: Seq<char>)
    requires
        c.wf(),
        name_or_uuid_index(c.accounts@, q) >= 0,
    ensures
        ({
            let k = name_or_uuid_index(c.accounts@, q);
            let selected = Config { active_account_uuid: Some(c.accounts@[k].uuid), ..c };
            &&& selected.spec_active_index() == k
            &&& selected.accounts@[selected.spec_active_index()] == c.accounts@[k]
        }),
{
    lemma_first_index(c.accounts@, name_or_uuid_pred(q));
    let k = name_or_uuid_index(c.accounts@, q);
    lemma_uuid_index_of_member(c.accounts@, k);
}

/// An offline launch that had to create its account finds that account on
/// the next launch under the same name.
pub proof fn lemma_offline_account_is_reused(accs: Seq<Account>, r: Account)
    requires
        offline_index(accs, r.username@) < 0,
        r.account_type == AccountType::Offline,
    ensures
        ({
            let after = spec_upsert_account(accs, r);
            let k = offline_index(after, r.username@);
            0 <= k < after.len() && after[k] == r
        }),
{
    let p = offline_pred(r.username@);
    lemma_first_index(accs, p);
    lemma_first_index(accs, uuid_pred(r.uuid@));
    let u = uuid_index(accs, r.uuid@);
    let after = spec_upsert_account(accs, r);
    if u >= 0 {
        assert forall|j: int| 0 <= j < u implies !p(after[j]) by {
            assert(after[j] == accs[j]);
        }
        lemma_first_index_is(after, p, u);
    } else {
        let m = accs.len() as int;
        assert forall|j: int| 0 <= j < m implies !p(after[j]) by {
            assert(after[j] == accs[j]);
        }
        lemma_first_index_is(after, p, m);
    }
}

} // verus!
