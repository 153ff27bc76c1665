//! Pure model of the page tree ("realms") served on top of the mirrored data.
//!
//! A realm is one page of the content hierarchy. Loading realms is the job of
//! the surrounding database layer; this module holds the realm value itself
//! and every decision that can be made from it alone: path classification,
//! user-realm ownership, write-access control and the derived name source.

use vstd::prelude::*;
use vstd::string::*;

verus! {

/// How the children of a realm should be ordered when displayed.
#[derive(Clone, Copy, Debug, PartialEq, Eq, Structural)]
pub enum RealmOrder {
    ByIndex,
    AlphabeticAsc,
    AlphabeticDesc,
}

/// The kind of node a global [`Id`] refers to.
#[derive(Clone, Copy, Debug, PartialEq, Eq, Structural)]
pub enum IdKind {
    Realm,
    Block,
    Series,
    Event,
}

/// A typed global identifier: a node kind paired with a database key.
#[derive(Clone, Copy, Debug, PartialEq, Eq, Structural)]
pub struct Id {
    pub kind: IdKind,
    pub key: i64,
}

impl Id {
    /// The identifier of the realm with the given database key.
    pub fn realm(key: i64) -> (r: Self)
        ensures
            r == (Id { kind: IdKind::Realm, key }),
    {
        Id { kind: IdKind::Realm, key }
    }

    /// Returns the key if this identifier refers to a node of the given kind.
    pub fn key_for(&self, kind: IdKind) -> (r: Option<i64>)
        ensures
            r == if self.kind == kind {
                Some(self.key)
            } else {
                None::<i64>
            },
    {
        if self.kind == kind {
            Some(self.key)
        } else {
            None
        }
    }
}

/// A user account, as far as access decisions need it: its name and the
/// access levels its roles grant under the current configuration.
pub struct AuthUser {
    pub username: String,
    pub is_admin: bool,
    pub is_moderator: bool,
}

/// Who is making the request.
pub enum AuthContext {
    Anonymous,
    User(AuthUser),
}

/// Whether the requester's roles grant administrator rights.
pub open spec fn spec_is_admin(auth: AuthContext) -> bool {
    match auth {
        AuthContext::Anonymous => false,
        AuthContext::User(u) => u.is_admin,
    }
}

/// Whether the requester's roles grant moderator rights.
pub open spec fn spec_is_moderator(auth: AuthContext) -> bool {
    match auth {
        AuthContext::Anonymous => false,
        AuthContext::User(u) => u.is_moderator,
    }
}

impl AuthContext {
    pub fn is_admin(&self) -> (r: bool)
        ensures
            r == spec_is_admin(*self),
    {
        match self {
            AuthContext::Anonymous => false,
            AuthContext::User(u) => u.is_admin,
        }
    }

    pub fn is_moderator(&self) -> (r: bool)
        ensures
            r == spec_is_moderator(*self),
    {
        match self {
            AuthContext::Anonymous => false,
            AuthContext::User(u) => u.is_moderator,
        }
    }
}

/// Per-request context, as far as realm decisions read it.
pub struct Context {
    pub auth: AuthContext,
}

/// Failure of an API-level access check.
#[derive(Clone, Copy, Debug, PartialEq, Eq, Structural)]
pub enum ApiError {
    /// The requester may not modify the realm in question.
    NoWriteAccess,
}

/// A user realm's full path starts with `/@`, directly followed by the
/// username of the owning user.
pub open spec fn is_user_path(p: Seq<char>) -> bool {
    p.len() >= 2 && p[0] == '/' && p[1] == '@'
}

/// The index right after the owner's username in a user-realm path: the
/// first `/` at or after position 2, or the end of the path.
pub open spec fn user_name_end(p: Seq<char>, i: int) -> int
    recommends
        2 <= i <= p.len(),
    decreases p.len() - i,
{
    if i >= p.len() {
        p.len() as int
    } else if p[i] == '/' {
        i
    } else {
        user_name_end(p, i + 1)
    }
}

/// The username of the user owning the realm tree a user-realm path lies in:
/// everything between the leading `/@` and the next `/` (or the path's end).
pub open spec fn owner_name(p: Seq<char>) -> Seq<char>
    recommends
        is_user_path(p),
{
    p.subrange(2, user_name_end(p, 2))
}

/// A range of a path that contains no `/` and either ends the path or stops
/// right before a `/` pins down `user_name_end`.
proof fn lemma_user_name_end(p: Seq<char>, start: int, end: int)
    requires
        2 <= start <= end <= p.len(),
        forall|j: int| start <= j < end ==> p[j] != '/',
        end < p.len() ==> p[end] == '/',
    ensures
        user_name_end(p, start) == end,
    decreases end - start,
{
    if start < end {
        lemma_user_name_end(p, start + 1, end);
    }
}

/// A simple realm name: a fixed string.
pub struct PlainRealmName {
    pub name: String,
}

/// A realm name that is derived from a block of that realm.
pub struct RealmNameFromBlock {
    /// Database key of the block the name comes from.
    pub block: i64,
}

/// The raw information about where a realm's name comes from.
pub enum RealmNameSource {
    Plain(PlainRealmName),
    Block(RealmNameFromBlock),
}

/// One page ("realm") of the content hierarchy, as mirrored from the
/// relational store. The main root realm has key 0 and the empty full path;
/// every other realm's full path starts with `/`, user realms' with `/@`.
pub struct Realm {
    /// Database key; 0 for the main root realm.
    pub key: i64,
    /// Key of the parent realm, absent for tree roots.
    pub parent_key: Option<i64>,
    /// The name fixed directly on the realm, if any.
    pub plain_name: Option<String>,
    /// The name as resolved from either the plain name or the name block.
    pub resolved_name: Option<String>,
    /// Key of the block the name is derived from, if any.
    pub name_from_block: Option<i64>,
    /// The trailing segment of the full path, without any `/`.
    pub path_segment: String,
    /// Full path from the root; empty for the main root realm.
    pub full_path: String,
    /// Position among the siblings when ordered by index.
    pub index: i32,
    /// How the children of this realm should be ordered.
    pub child_order: RealmOrder,
    /// Display name of the owning user, set on user-realm roots only.
    pub owner_display_name: Option<String>,
}

/// Whether the requester may edit the given realm: the owner (or an
/// administrator) for realms inside a user realm tree, moderators for all
/// others.
pub open spec fn spec_can_edit(realm: Realm, ctx: Context) -> bool {
    if is_user_path(realm.full_path@) {
        (match ctx.auth {
            AuthContext::User(u) => u.username@ == owner_name(realm.full_path@),
            AuthContext::Anonymous => false,
        }) || spec_is_admin(ctx.auth)
    } else {
        spec_is_moderator(ctx.auth)
    }
}

/// Where a realm's name comes from: the plain name when one is set, else the
/// name block when one is set, else nowhere (the realm is unnamed).
pub open spec fn spec_name_source(realm: Realm) -> Option<RealmNameSource> {
    match realm.plain_name {
        Some(name) => Some(RealmNameSource::Plain(PlainRealmName { name })),
        None => match realm.name_from_block {
            Some(block) => Some(RealmNameSource::Block(RealmNameFromBlock { block })),
            None => None,
        },
    }
}

impl Realm {
    /// Returns `true` if this is the root of the public realm tree.
    pub fn is_main_root(&self) -> (r: bool)
        ensures
            r == (self.key == 0),
    {
        self.key == 0
    }

    /// Returns `true` if this realm is managed by a user (path starting with
    /// `/@`).
    pub fn is_user_realm(&self) -> (r: bool)
        ensures
            r == is_user_path(self.full_path@),
    {
        let s = self.full_path.as_str();
        let len = s.unicode_len();
        len >= 2 && s.get_char(0) == '/' && s.get_char(1) == '@'
    }

    /// Returns `true` if this is the root of a user realm tree.
    pub fn is_user_root(&self) -> (r: bool)
        ensures
            r == (is_user_path(self.full_path@) && self.parent_key is None),
    {
        self.is_user_realm() && self.parent_key.is_none()
    }

    /// Returns the username of the user owning this realm tree if it is a
    /// user realm; otherwise returns `None`.
    pub fn owning_user<'a>(&'a self) -> (r: Option<&'a str>)
        ensures
            match r {
                Some(u) => is_user_path(self.full_path@) && u@ == owner_name(self.full_path@),
                None => !is_user_path(self.full_path@),
            },
    {
        let s = self.full_path.as_str();
        let len = s.unicode_len();
        if len < 2 || s.get_char(0) != '/' || s.get_char(1) != '@' {
            return None;
        }
        let mut i: usize = 2;
        while i < len && s.get_char(i) != '/'
            invariant
                2 <= i <= len,
                len == s@.len(),
                s@ == self.full_path@,
                forall|j: int| 2 <= j < i ==> s@[j] != '/',
            decreases len - i,
        {
            i += 1;
        }
        proof {
            lemma_user_name_end(s@, 2, i as int);
        }
        Some(s.substring_char(2, i))
    }

    /// Whether the requester may edit this realm.
    pub fn can_current_user_edit(&self, context: &Context) -> (r: bool)
        ensures
            r == spec_can_edit(*self, *context),
    {
        match self.owning_user() {
            Some(owning_user) => {
                let is_owner = match &context.auth {
                    AuthContext::User(u) => u.username == String::from_str(owning_user),
                    AuthContext::Anonymous => false,
                };
                is_owner || context.auth.is_admin()
            },
            None => context.auth.is_moderator(),
        }
    }

    /// Fails with [`ApiError::NoWriteAccess`] unless the requester may edit
    /// this realm.
    pub fn require_write_access(&self, context: &Context) -> (r: Result<(), ApiError>)
        ensures
            r == if spec_can_edit(*self, *context) {
                Ok::<(), ApiError>(())
            } else {
                Err::<(), ApiError>(ApiError::NoWriteAccess)
            },
    {
        if !self.can_current_user_edit(context) {
            return Err(ApiError::NoWriteAccess);
        }
        Ok(())
    }

    /// The global identifier of this realm.
    pub fn id(&self) -> (r: Id)
        ensures
            r == (Id { kind: IdKind::Realm, key: self.key }),
    {
        Id::realm(self.key)
    }

    /// The name of this realm, or `None` if it has no name.
    pub fn name(&self) -> (r: Option<&str>)
        ensures
            match r {
                Some(n) => self.resolved_name matches Some(s) && n@ == s@,
                None => self.resolved_name is None,
            },
    {
        match &self.resolved_name {
            Some(s) => Some(s.as_str()),
            None => None,
        }
    }

    /// The raw information about the name of the realm: where it comes from,
    /// and if there is no name, why that is.
    pub fn name_source(&self) -> (r: Option<RealmNameSource>)
        ensures
            r == spec_name_source(*self),
    {
        match &self.plain_name {
            Some(name) => Some(RealmNameSource::Plain(PlainRealmName { name: name.clone() })),
            None => match self.name_from_block {
                Some(block) => Some(RealmNameSource::Block(RealmNameFromBlock { block })),
                None => None,
            },
        }
    }

    /// Position among the siblings when ordered by index.
    pub fn index(&self) -> (r: i32)
        ensures
            r == self.index,
    {
        self.index
    }

    /// How the children of this realm should be ordered, e.g. in navigation.
    pub fn child_order(&self) -> (r: RealmOrder)
        ensures
            r == self.child_order,
    {
        self.child_order
    }

    /// The trailing segment of this realm's path. Empty for the main root.
    pub fn path_segment(&self) -> (r: &str)
        ensures
            r@ == self.path_segment@,
    {
        self.path_segment.as_str()
    }

    /// The full path of this realm: `/` for the main root realm, otherwise
    /// the stored full path, which never has a trailing `/`.
    pub fn path(&self) -> (r: &str)
        ensures
            self.key == 0 ==> r@ == "/"@,
            self.key != 0 ==> r@ == self.full_path@,
    {
        if self.key == 0 {
            "/"
        } else {
            self.full_path.as_str()
        }
    }

    /// The display name of the owning user on user-realm roots, `None` for
    /// all other realms.
    pub fn owner_display_name(&self) -> (r: Option<&str>)
        ensures
            match r {
                Some(n) => self.owner_display_name matches Some(s) && n@ == s@,
                None => self.owner_display_name is None,
            },
    {
        match &self.owner_display_name {
            Some(s) => Some(s.as_str()),
            None => None,
        }
    }
}

/// How to look up a realm by a user-supplied path.
pub enum PathLookup {
    /// The path names the main root realm.
    Root,
    /// The path must be matched against the stored full paths, with this
    /// normalized value.
    ByFullPath(String),
}

/// A user-supplied path with a single trailing `/` stripped; stored full
/// paths never carry one.
pub open spec fn spec_normalized_path(p: Seq<char>) -> Seq<char> {
    if p.len() > 0 && p[p.len() - 1] == '/' {
        p.drop_last()
    } else {
        p
    }
}

/// Decides how to look up a realm by path: a single trailing slash is
/// ignored, and the empty path (so also `/`) names the main root realm.
pub fn lookup_for_path(path: &str) -> (r: PathLookup)
    ensures
        match r {
            PathLookup::Root => spec_normalized_path(path@).len() == 0,
            PathLookup::ByFullPath(q) => q@ == spec_normalized_path(path@) && q@.len() > 0,
        },
{
    let len = path.unicode_len();
    if len == 0 {
        return PathLookup::Root;
    }
    if path.get_char(len - 1) == '/' {
        if len == 1 {
            return PathLookup::Root;
        }
        let stripped = path.substring_char(0, len - 1);
        proof {
            assert(stripped@ =~= spec_normalized_path(path@));
        }
        PathLookup::ByFullPath(String::from_str(stripped))
    } else {
        PathLookup::ByFullPath(String::from_str(path))
    }
}

} // verus!
