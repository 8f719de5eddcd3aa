//! Social graph contract: each user keeps a list of the addresses they have
//! befriended. Friendship is directed: `add_friend(a, b)` makes `b` a friend
//! of `a` and leaves the list of `b` alone.
use crate::host::{Abort, Address, CallContext};
use vstd::hash_map::HashMapWithView;
use vstd::prelude::*;

verus! {

/// The friends list of `user` in a map of stored lists (absent means empty).
pub open spec fn stored_list(m: Map<Address, Vec<Address>>, user: Address) -> Seq<Address> {
    if m.contains_key(user) {
        m[user]@
    } else {
        Seq::empty()
    }
}

/// A well-formed friends list of `owner`: it names no address twice, and not
/// `owner` itself.
pub open spec fn list_wf(list: Seq<Address>, owner: Address) -> bool {
    list.no_duplicates() && !list.contains(owner)
}

/// A well-formed graph: every user has a friends list, and every friends
/// list is well-formed.
pub open spec fn graph_wf(g: Map<Address, Seq<Address>>) -> bool {
    forall|u: Address|
        #![trigger g[u]]
        #![trigger g.contains_key(u)]
        g.contains_key(u) && list_wf(g[u], u)
}

/// The friends list of `user` after `add_friend(user, friend)` succeeded.
pub open spec fn list_after_add(list: Seq<Address>, friend: Address) -> Seq<Address> {
    if list.contains(friend) {
        list
    } else {
        list.push(friend)
    }
}

/// The friends list after `remove_friend(user, friend)`.
pub open spec fn list_after_remove(list: Seq<Address>, friend: Address) -> Seq<Address> {
    list.filter(|f: Address| f != friend)
}

/// The graph after `add_friend(user, friend)` succeeded.
pub open spec fn after_add(g: Map<Address, Seq<Address>>, user: Address, friend: Address) -> Map<
    Address,
    Seq<Address>,
> {
    g.insert(user, list_after_add(g[user], friend))
}

/// The graph after `remove_friend(user, friend)` succeeded.
pub open spec fn after_remove(g: Map<Address, Seq<Address>>, user: Address, friend: Address) -> Map<
    Address,
    Seq<Address>,
> {
    g.insert(user, list_after_remove(g[user], friend))
}

/// Removing an address from a list keeps exactly the other entries, in order,
/// and keeps the list free of duplicates.
pub proof fn lemma_remove_list(list: Seq<Address>, friend: Address)
    ensures
        !list_after_remove(list, friend).contains(friend),
        forall|a: Address|
            a != friend ==> (list.contains(a) <==> #[trigger] list_after_remove(list, friend).contains(a)),
        list.no_duplicates() ==> list_after_remove(list, friend).no_duplicates(),
        !list.contains(friend) ==> list_after_remove(list, friend) == list,
{
    broadcast use vstd::seq_lib::group_filter_ensures, Seq::lemma_filter_contains_rev;

    let pred = |f: Address| f != friend;
    let r = list.filter(pred);
    if r.contains(friend) {
        let k = choose|k: int| 0 <= k < r.len() && r[k] == friend;
        assert(pred(r[k]));
    }
    assert forall|a: Address| a != friend implies (list.contains(a) <==> #[trigger] r.contains(a)) by {
        if list.contains(a) {
            let k = choose|k: int| 0 <= k < list.len() && list[k] == a;
            assert(pred(list[k]));
            assert(r.contains(list[k]));
        }
    }
    lemma_filter_keeps(list, friend);
}

/// Filtering an address out keeps a list free of duplicates, and leaves a
/// list that does not hold it unchanged.
proof fn lemma_filter_keeps(list: Seq<Address>, friend: Address)
    ensures
        list.no_duplicates() ==> list_after_remove(list, friend).no_duplicates(),
        !list.contains(friend) ==> list_after_remove(list, friend) == list,
    decreases list.len(),
{
    broadcast use Seq::lemma_filter_contains_rev;

    reveal(Seq::filter);
    let pred = |f: Address| f != friend;
    if list.len() > 0 {
        let init = list.drop_last();
        let last = list.last();
        lemma_filter_keeps(init, friend);
        let r = list_after_remove(list, friend);
        let ri = list_after_remove(init, friend);
        assert(r == (if last != friend { ri.push(last) } else { ri }));
        assert(list == init.push(last));
        if list.no_duplicates() {
            assert(init.no_duplicates()) by {
                assert forall|i: int, j: int| 0 <= i < j < init.len() implies init[i] != init[j] by {
                    assert(list[i] == init[i] && list[j] == init[j]);
                }
            }
            if last != friend {
                assert(!ri.contains(last)) by {
                    if ri.contains(last) {
                        assert(init.contains(last));
                        let k = choose|k: int| 0 <= k < init.len() && init[k] == last;
                        assert(list[k] == list[list.len() - 1]);
                    }
                }
                assert forall|i: int, j: int| 0 <= i < j < r.len() implies r[i] != r[j] by {
                    if j == r.len() - 1 {
                        assert(ri[i] == r[i]);
                        assert(ri.contains(r[i]));
                    } else {
                        assert(ri[i] == r[i] && ri[j] == r[j]);
                    }
                }
            }
        }
        if !list.contains(friend) {
            assert(!init.contains(friend)) by {
                if init.contains(friend) {
                    let k = choose|k: int| 0 <= k < init.len() && init[k] == friend;
                    assert(list[k] == friend);
                }
            }
            assert(last != friend) by {
                assert(list[list.len() - 1] == last);
            }
        }
    } else {
        assert(list.filter(pred) =~= Seq::<Address>::empty());
    }
}

/// After `add_friend(user, friend)` succeeds, `friend` is a friend of `user`,
/// every other list is unchanged, and the graph stays well-formed.
pub proof fn lemma_add_makes_friend(g: Map<Address, Seq<Address>>, user: Address, friend: Address)
    requires
        graph_wf(g),
        user != friend,
    ensures
        after_add(g, user, friend)[user].contains(friend),
        forall|a: Address| #[trigger] after_add(g, user, friend)[user].contains(a) <==> (
        g[user].contains(a) || a == friend),
        forall|u: Address| u != user ==> #[trigger] after_add(g, user, friend)[u] == g[u],
        graph_wf(after_add(g, user, friend)),
{
    let l = g[user];
    assert(list_wf(g[user], user));
    let n = list_after_add(l, friend);
    if !l.contains(friend) {
        assert(n[n.len() - 1] == friend);
        assert forall|a: Address| #[trigger] n.contains(a) <==> (l.contains(a) || a == friend) by {
            if l.contains(a) {
                let k = choose|k: int| 0 <= k < l.len() && l[k] == a;
                assert(n[k] == a);
            }
            if n.contains(a) && a != friend {
                let k = choose|k: int| 0 <= k < n.len() && n[k] == a;
                assert(l[k] == a);
            }
        }
        assert forall|i: int, j: int| 0 <= i < j < n.len() implies n[i] != n[j] by {
            if j == n.len() - 1 {
                assert(l[i] == n[i]);
                assert(l.contains(n[i]));
            } else {
                assert(l[i] == n[i] && l[j] == n[j]);
            }
        }
    }
    let g2 = after_add(g, user, friend);
    assert forall|u: Address| list_wf(#[trigger] g2[u], u) by {
        assert(list_wf(g[u], u));
    }
}

/// Adding a friend who is already on the list changes nothing.
pub proof fn lemma_add_idempotent(g: Map<Address, Seq<Address>>, user: Address, friend: Address)
    requires
        graph_wf(g),
        g[user].contains(friend),
    ensures
        after_add(g, user, friend) == g,
{
    assert(g.contains_key(user));
    assert(after_add(g, user, friend) =~= g);
}

/// After `remove_friend(user, friend)`, `friend` is no longer a friend of
/// `user`, every other friend of `user` stays, every other list is unchanged,
/// and the graph stays well-formed.
pub proof fn lemma_remove_unfriends(g: Map<Address, Seq<Address>>, user: Address, friend: Address)
    requires
        graph_wf(g),
    ensures
        !after_remove(g, user, friend)[user].contains(friend),
        forall|a: Address|
            a != friend ==> (#[trigger] after_remove(g, user, friend)[user].contains(a) <==> g[user].contains(a)),
        forall|u: Address| u != user ==> #[trigger] after_remove(g, user, friend)[u] == g[u],
        graph_wf(after_remove(g, user, friend)),
{
    lemma_remove_list(g[user], friend);
    assert(list_wf(g[user], user));
    let g2 = after_remove(g, user, friend);
    assert forall|u: Address| list_wf(#[trigger] g2[u], u) by {
        assert(list_wf(g[u], u));
    }
}

/// Removing a friend who was just added (and was not a friend before) gives
/// back the graph as it was.
pub proof fn lemma_remove_undoes_add(g: Map<Address, Seq<Address>>, user: Address, friend: Address)
    requires
        graph_wf(g),
        !g[user].contains(friend),
    ensures
        after_remove(after_add(g, user, friend), user, friend) == g,
{
    reveal(Seq::filter);
    assert(g.contains_key(user));
    let l = g[user];
    let n = l.push(friend);
    assert(n.drop_last() == l);
    lemma_remove_list(l, friend);
    assert(list_after_remove(n, friend) == list_after_remove(l, friend));
    assert(after_remove(after_add(g, user, friend), user, friend) =~= g);
}

/// The social graph contract.
pub struct SocialGraphContract {
    lists: HashMapWithView<Address, Vec<Address>>,
}

impl SocialGraphContract {
    #[verifier::type_invariant]
    spec fn lists_wf(&self) -> bool {
        graph_wf(self@)
    }
}

impl View for SocialGraphContract {
    type V = Map<Address, Seq<Address>>;

    /// The friends list of every user, in the order the friends were added.
    closed spec fn view(&self) -> Map<Address, Seq<Address>> {
        Map::new(|u: Address| true, |u: Address| stored_list(self.lists@, u))
    }
}

impl SocialGraphContract {
    /// A freshly deployed contract: every friends list is empty.
    pub fn new() -> (c: SocialGraphContract)
        ensures
            forall|u: Address| #[trigger] c@[u] == Seq::<Address>::empty(),
            graph_wf(c@),
    {
        let c = SocialGraphContract { lists: HashMapWithView::new() };
        assert(graph_wf(c@)) by {
            assert forall|u: Address| list_wf(#[trigger] c@[u], u) by {
                assert(c@[u] == stored_list(c.lists@, u));
            }
        }
        c
    }

    /// The stored list of `user`, copied out.
    fn list_of(&self, user: Address) -> (r: Vec<Address>)
        ensures
            r@ == self@[user],
    {
        match self.lists.get(&user) {
            Some(v) => {
                let mut out: Vec<Address> = Vec::new();
                let mut i: usize = 0;
                while i < v.len()
                    invariant
                        i <= v.len(),
                        out@ == v@.take(i as int),
                    decreases v.len() - i,
                {
                    out.push(v[i]);
                    assert(v@.take(i + 1) == v@.take(i as int).push(v@[i as int]));
                    i = i + 1;
                }
                assert(v@.take(v@.len() as int) == v@);
                out
            },
            None => Vec::new(),
        }
    }

    /// Stores `list` as the friends list of `user`.
    fn store(&mut self, user: Address, list: Vec<Address>)
        requires
            graph_wf(old(self)@.insert(user, list@)),
        ensures
            final(self)@ == old(self)@.insert(user, list@),
    {
        let ghost target = self@.insert(user, list@);
        let mut m = HashMapWithView::new();
        std::mem::swap(&mut m, &mut self.lists);
        m.insert(user, list);
        let ghost lists = m@;
        assert(Map::new(|u: Address| true, |u: Address| stored_list(lists, u)) =~= target);
        self.lists = m;
    }

    /// Makes `friend` a friend of `user`; adding a present friend again
    /// changes nothing.
    pub fn add_friend(&mut self, ctx: &CallContext, user: Address, friend: Address) -> (r: Result<
        (),
        Abort,
    >)
        ensures
            r is Ok <==> (ctx.authorizes(user) && user != friend),
            !ctx.authorizes(user) ==> r == Err::<(), Abort>(Abort::MissingAuth(user)),
            ctx.authorizes(user) && user == friend ==> r == Err::<(), Abort>(Abort::SelfFriendship),
            r is Ok ==> final(self)@ == after_add(old(self)@, user, friend),
            r is Err ==> final(self)@ == old(self)@,
            graph_wf(final(self)@),
    {
        proof {
            use_type_invariant(&*self);
        }
        if !ctx.require_auth(user) {
            return Err(Abort::MissingAuth(user));
        }
        if user == friend {
            return Err(Abort::SelfFriendship);
        }
        let mut friends = self.list_of(user);
        if !contains_address(&friends, friend) {
            proof {
                lemma_add_makes_friend(self@, user, friend);
            }
            friends.push(friend);
            self.store(user, friends);
        }
        Ok(())
    }

    /// Removes `friend` from the friends list of `user` (a no-op when absent).
    pub fn remove_friend(&mut self, ctx: &CallContext, user: Address, friend: Address) -> (r:
        Result<(), Abort>)
        ensures
            r is Ok <==> ctx.authorizes(user),
            r is Err ==> r == Err::<(), Abort>(Abort::MissingAuth(user)),
            r is Ok ==> final(self)@ == after_remove(old(self)@, user, friend),
            r is Err ==> final(self)@ == old(self)@,
            graph_wf(final(self)@),
    {
        proof {
            use_type_invariant(&*self);
        }
        if !ctx.require_auth(user) {
            return Err(Abort::MissingAuth(user));
        }
        let friends = self.list_of(user);
        let mut updated: Vec<Address> = Vec::new();
        let mut i: usize = 0;
        while i < friends.len()
            invariant
                i <= friends.len(),
                updated@ == list_after_remove(friends@.take(i as int), friend),
            decreases friends.len() - i,
        {
            proof {
                reveal(Seq::filter);
                assert(friends@.take(i + 1).drop_last() == friends@.take(i as int));
                assert(friends@.take(i + 1).last() == friends@[i as int]);
            }
            if friends[i] != friend {
                updated.push(friends[i]);
            }
            i = i + 1;
        }
        assert(friends@.take(friends@.len() as int) == friends@);
        proof {
            lemma_remove_unfriends(self@, user, friend);
        }
        self.store(user, updated);
        Ok(())
    }

    /// Whether `friend` is on the friends list of `user`.
    pub fn is_friend(&self, user: Address, friend: Address) -> (r: bool)
        ensures
            r == self@[user].contains(friend),
    {
        let friends = self.list_of(user);
        contains_address(&friends, friend)
    }

    /// The friends list of `user`, in the order the friends were added.
    pub fn get_friends(&self, user: Address) -> (r: Vec<Address>)
        ensures
            r@ == self@[user],
    {
        self.list_of(user)
    }
}

/// Whether `a` occurs in `v`.
fn contains_address(v: &Vec<Address>, a: Address) -> (r: bool)
    ensures
        r == v@.contains(a),
{
    let mut i: usize = 0;
    while i < v.len()
        invariant
            i <= v.len(),
            forall|j: int| 0 <= j < i ==> v@[j] != a,
        decreases v.len() - i,
    {
        if v[i] == a {
            assert(v@[i as int] == a);
            return true;
        }
        i = i + 1;
    }
    false
}

} // verus!
