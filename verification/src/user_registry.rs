//! User registry contract: unique usernames mapped to addresses, the
//! username of each address, and a profile avatar per address.
use crate::host::{Abort, Address, CallContext};
use vstd::hash_map::{HashMapWithView, StringHashMap};
use vstd::prelude::*;

verus! {

/// The registry's state.
pub struct UserRegistryView {
    /// The address registered under each username.
    pub addresses: Map<Seq<char>, Address>,
    /// The latest username each address registered.
    pub usernames: Map<Address, Seq<char>>,
    /// The avatar URI of each address that set one.
    pub avatars: Map<Address, Seq<char>>,
}

impl UserRegistryView {
    /// The username of every registered address resolves back to it, and
    /// every username belongs to a registered address.
    pub open spec fn wf(self) -> bool {
        &&& forall|a: Address| #[trigger]
            self.usernames.contains_key(a) ==> self.addresses.contains_key(self.usernames[a])
                && self.addresses[self.usernames[a]] == a
        &&& forall|n: Seq<char>| #[trigger]
            self.addresses.contains_key(n) ==> self.usernames.contains_key(self.addresses[n])
    }

    /// The state after `user` registered `username`.
    pub open spec fn after_register(self, user: Address, username: Seq<char>) -> UserRegistryView {
        UserRegistryView {
            addresses: self.addresses.insert(username, user),
            usernames: self.usernames.insert(user, username),
            avatars: self.avatars,
        }
    }
}

/// A registration keeps the registry well-formed, leaves every username
/// already taken with its address, and makes the new username and the
/// address resolve to each other.
pub proof fn lemma_register_keeps_wf(v: UserRegistryView, user: Address, username: Seq<char>)
    requires
        v.wf(),
        !v.addresses.contains_key(username),
    ensures
        v.after_register(user, username).wf(),
        v.after_register(user, username).addresses[username] == user,
        v.after_register(user, username).usernames[user] == username,
        forall|n: Seq<char>| #[trigger]
            v.addresses.contains_key(n) ==> v.after_register(user, username).addresses.contains_key(n)
                && v.after_register(user, username).addresses[n] == v.addresses[n],
{
    let w = v.after_register(user, username);
    assert forall|a: Address| #[trigger] w.usernames.contains_key(a) implies w.addresses.contains_key(
        w.usernames[a],
    ) && w.addresses[w.usernames[a]] == a by {
        if a != user {
            assert(v.usernames.contains_key(a));
        }
    }
    assert forall|n: Seq<char>| #[trigger] w.addresses.contains_key(n) implies w.usernames.contains_key(
        w.addresses[n],
    ) by {
        if n != username {
            assert(v.addresses.contains_key(n));
        }
    }
}

/// The three maps the registry stores.
struct Tables {
    addresses: StringHashMap<Address>,
    usernames: HashMapWithView<Address, String>,
    avatars: HashMapWithView<Address, String>,
}

impl View for Tables {
    type V = UserRegistryView;

    closed spec fn view(&self) -> UserRegistryView {
        UserRegistryView {
            addresses: self.addresses@,
            usernames: self.usernames@.map_values(|s: String| s@),
            avatars: self.avatars@.map_values(|s: String| s@),
        }
    }
}

impl Tables {
    fn empty() -> (t: Tables)
        ensures
            t@.addresses.is_empty(),
            t@.usernames.is_empty(),
            t@.avatars.is_empty(),
            t@.wf(),
    {
        let t = Tables {
            addresses: StringHashMap::new(),
            usernames: HashMapWithView::new(),
            avatars: HashMapWithView::new(),
        };
        assert(t@.usernames =~= Map::<Address, Seq<char>>::empty());
        assert(t@.avatars =~= Map::<Address, Seq<char>>::empty());
        t
    }
}

/// The user registry contract.
pub struct UserRegistryContract {
    tables: Tables,
}

impl View for UserRegistryContract {
    type V = UserRegistryView;

    closed spec fn view(&self) -> UserRegistryView {
        self.tables@
    }
}

impl UserRegistryContract {
    #[verifier::type_invariant]
    spec fn registry_wf(&self) -> bool {
        self@.wf()
    }

    /// A freshly deployed registry: nothing registered.
    pub fn new() -> (c: UserRegistryContract)
        ensures
            c@.addresses.is_empty(),
            c@.usernames.is_empty(),
            c@.avatars.is_empty(),
            c@.wf(),
    {
        UserRegistryContract { tables: Tables::empty() }
    }

    /// Registers `username` for `user`; a username can be taken only once.
    pub fn register_user(&mut self, ctx: &CallContext, user: Address, username: String) -> (r:
        Result<(), Abort>)
        ensures
            r is Ok <==> (ctx.authorizes(user) && !old(self)@.addresses.contains_key(username@)),
            !ctx.authorizes(user) ==> r == Err::<(), Abort>(Abort::MissingAuth(user)),
            ctx.authorizes(user) && old(self)@.addresses.contains_key(username@) ==> r == Err::<
                (),
                Abort,
            >(Abort::UsernameTaken),
            r is Err ==> final(self)@ == old(self)@,
            r is Ok ==> final(self)@ == old(self)@.after_register(user, username@),
            final(self)@.wf(),
    {
        proof {
            use_type_invariant(&*self);
        }
        if !ctx.require_auth(user) {
            return Err(Abort::MissingAuth(user));
        }
        if self.tables.addresses.contains_key(username.as_str()) {
            return Err(Abort::UsernameTaken);
        }
        proof {
            lemma_register_keeps_wf(self@, user, username@);
        }
        let ghost target = self@.after_register(user, username@);
        let key = username.clone();
        let mut t = Tables::empty();
        std::mem::swap(&mut t, &mut self.tables);
        let ghost old_names = t.usernames@;
        t.addresses.insert(key, user);
        t.usernames.insert(user, username);
        assert(t.usernames@.map_values(|s: String| s@) =~= old_names.map_values(|s: String| s@).insert(
            user,
            target.usernames[user],
        ));
        self.tables = t;
        Ok(())
    }

    /// The address registered under `username`.
    pub fn get_address(&self, username: &str) -> (r: Result<Address, Abort>)
        ensures
            r is Ok <==> self@.addresses.contains_key(username@),
            r matches Ok(a) ==> a == self@.addresses[username@],
            r is Err ==> r == Err::<Address, Abort>(Abort::UsernameNotFound),
    {
        match self.tables.addresses.get(username) {
            Some(a) => Ok(*a),
            None => Err(Abort::UsernameNotFound),
        }
    }

    /// The username that `user` registered last.
    pub fn get_username(&self, user: Address) -> (r: Result<String, Abort>)
        ensures
            r is Ok <==> self@.usernames.contains_key(user),
            r matches Ok(n) ==> n@ == self@.usernames[user],
            r is Err ==> r == Err::<String, Abort>(Abort::AddressNotRegistered),
    {
        match self.tables.usernames.get(&user) {
            Some(n) => Ok(n.clone()),
            None => Err(Abort::AddressNotRegistered),
        }
    }

    /// Sets the avatar URI of `user`; `user` must sign.
    pub fn update_profile(&mut self, ctx: &CallContext, user: Address, avatar_uri: String) -> (r:
        Result<(), Abort>)
        ensures
            r is Ok <==> ctx.authorizes(user),
            r is Err ==> r == Err::<(), Abort>(Abort::MissingAuth(user)) && final(self)@ == old(
                self,
            )@,
            r is Ok ==> final(self)@ == (UserRegistryView {
                avatars: old(self)@.avatars.insert(user, avatar_uri@),
                ..old(self)@
            }),
            final(self)@.wf(),
    {
        proof {
            use_type_invariant(&*self);
        }
        if !ctx.require_auth(user) {
            return Err(Abort::MissingAuth(user));
        }
        let ghost uri = avatar_uri@;
        let mut t = Tables::empty();
        std::mem::swap(&mut t, &mut self.tables);
        let ghost old_avatars = t.avatars@;
        let ghost before = t@;
        t.avatars.insert(user, avatar_uri);
        assert(t@.addresses == before.addresses && t@.usernames == before.usernames);
        assert(t.avatars@.map_values(|s: String| s@) =~= old_avatars.map_values(|s: String| s@).insert(
            user,
            uri,
        ));
        self.tables = t;
        Ok(())
    }

    /// The avatar URI of `user`, or the empty string when none was set.
    pub fn get_avatar(&self, user: Address) -> (r: String)
        ensures
            self@.avatars.contains_key(user) ==> r@ == self@.avatars[user],
            !self@.avatars.contains_key(user) ==> r@ == Seq::<char>::empty(),
    {
        match self.tables.avatars.get(&user) {
            Some(a) => a.clone(),
            None => String::new(),
        }
    }
}

} // verus!
