use vstd::prelude::*;

verus! {

/// The logical destination that stands for the first subscriber, whatever its address.
pub const HEAD_NODE: &'static str = "HEAD_NODE";

/// The characters of [`HEAD_NODE`].
pub open spec fn head_node() -> Seq<char> {
    seq!['H', 'E', 'A', 'D', '_', 'N', 'O', 'D', 'E']
}

/// The address a destination names, if any.
pub open spec fn dest_view(dest: Option<String>) -> Option<Seq<char>> {
    match dest {
        Some(d) => Some(d@),
        None => None,
    }
}

/// Whether a packet for `dest` is written to the subscriber at position `k` of `addrs`:
/// every subscriber for a broadcast, else the one whose address is `dest`, and the first one
/// for [`HEAD_NODE`].
pub open spec fn routes_to(addrs: Seq<Seq<char>>, dest: Option<Seq<char>>, k: int) -> bool {
    match dest {
        None => true,
        Some(d) => addrs[k] == d || (k == 0 && d == head_node()),
    }
}

/// The positions among the first `n` of `addrs` that a packet for `dest` is written to,
/// in increasing order.
pub open spec fn route_prefix(addrs: Seq<Seq<char>>, dest: Option<Seq<char>>, n: nat) -> Seq<usize>
    decreases n,
{
    if n == 0 {
        seq![]
    } else {
        let p = route_prefix(addrs, dest, (n - 1) as nat);
        if routes_to(addrs, dest, n - 1) {
            p.push((n - 1) as usize)
        } else {
            p
        }
    }
}

/// The positions of `addrs` that a packet for `dest` is written to, in increasing order.
pub open spec fn routed(addrs: Seq<Seq<char>>, dest: Option<Seq<char>>) -> Seq<usize> {
    route_prefix(addrs, dest, addrs.len())
}

/// The positions `0, 1, ..., n - 1`.
pub open spec fn all_positions(n: nat) -> Seq<usize> {
    Seq::new(n, |i: int| i as usize)
}

/// A broadcast is written to every subscriber, in the order of the table.
pub proof fn lemma_broadcast_reaches_all(addrs: Seq<Seq<char>>)
    ensures
        routed(addrs, None) == all_positions(addrs.len()),
{
    lemma_broadcast_prefix(addrs, addrs.len());
}

proof fn lemma_broadcast_prefix(addrs: Seq<Seq<char>>, n: nat)
    ensures
        route_prefix(addrs, None, n) == all_positions(n),
    decreases n,
{
    if n > 0 {
        lemma_broadcast_prefix(addrs, (n - 1) as nat);
        assert(all_positions((n - 1) as nat).push((n - 1) as usize) =~= all_positions(n));
    } else {
        assert(all_positions(0) =~= Seq::<usize>::empty());
    }
}

/// A packet for [`HEAD_NODE`] is written to the first subscriber and to no other, as long as
/// no other subscriber has that literal address.
pub proof fn lemma_head_node_unicast(addrs: Seq<Seq<char>>)
    requires
        addrs.len() > 0,
        forall|k: int| 0 < k < addrs.len() ==> addrs[k] != head_node(),
    ensures
        routed(addrs, Some(head_node())) == seq![0usize],
{
    lemma_head_node_prefix(addrs, addrs.len());
}

proof fn lemma_head_node_prefix(addrs: Seq<Seq<char>>, n: nat)
    requires
        0 < n <= addrs.len(),
        forall|k: int| 0 < k < addrs.len() ==> addrs[k] != head_node(),
    ensures
        route_prefix(addrs, Some(head_node()), n) == seq![0usize],
    decreases n,
{
    if n > 1 {
        lemma_head_node_prefix(addrs, (n - 1) as nat);
    } else {
        assert(route_prefix(addrs, Some(head_node()), 0) =~= Seq::<usize>::empty());
        assert(Seq::<usize>::empty().push(0usize) =~= seq![0usize]);
    }
}


/// The positions a packet is written to are exactly the subscribers it is routed to.
pub proof fn lemma_routed_members(addrs: Seq<Seq<char>>, dest: Option<Seq<char>>)
    requires
        addrs.len() <= usize::MAX,
    ensures
        forall|k: int|
            0 <= k < addrs.len() ==> (routed(addrs, dest).contains(k as usize) <==> routes_to(
                addrs,
                dest,
                k,
            )),
        forall|i: int|
            0 <= i < routed(addrs, dest).len() ==> routed(addrs, dest)[i] < addrs.len(),
{
    lemma_route_prefix_members(addrs, dest, addrs.len());
}

proof fn lemma_route_prefix_members(addrs: Seq<Seq<char>>, dest: Option<Seq<char>>, n: nat)
    requires
        n <= addrs.len() <= usize::MAX,
    ensures
        forall|k: int|
            0 <= k < n ==> (route_prefix(addrs, dest, n).contains(k as usize) <==> routes_to(
                addrs,
                dest,
                k,
            )),
        forall|i: int|
            0 <= i < route_prefix(addrs, dest, n).len() ==> route_prefix(addrs, dest, n)[i] < n,
    decreases n,
{
    if n > 0 {
        let m = (n - 1) as nat;
        lemma_route_prefix_members(addrs, dest, m);
        let p = route_prefix(addrs, dest, m);
        let q = route_prefix(addrs, dest, n);
        assert forall|k: int| 0 <= k < n implies (q.contains(k as usize) <==> routes_to(
            addrs,
            dest,
            k,
        )) by {
            if q.contains(k as usize) {
                let i = choose|i: int| 0 <= i < q.len() && q[i] == k as usize;
                if i < p.len() {
                    assert(p[i] == k as usize);
                    assert(p.contains(k as usize));
                }
            }
            if k < m && p.contains(k as usize) {
                let i = choose|i: int| 0 <= i < p.len() && p[i] == k as usize;
                assert(q[i] == k as usize);
            }
            if k == m && routes_to(addrs, dest, k) {
                assert(q[q.len() - 1] == k as usize);
            }
        }
    }
}

/// Of a run of outbound requests for destinations `dests`, in issue order, the ones whose
/// frames are written to the subscriber at position `k`, in the order they are written.
pub open spec fn stream_log(addrs: Seq<Seq<char>>, dests: Seq<Option<Seq<char>>>, k: int) -> Seq<
    int,
>
    decreases dests.len(),
{
    if dests.len() == 0 {
        seq![]
    } else {
        let p = stream_log(addrs, dests.drop_last(), k);
        if routes_to(addrs, dests.last(), k) {
            p.push(dests.len() - 1)
        } else {
            p
        }
    }
}

/// Of a run of outbound requests for destinations `dests`, in issue order, the broadcasts and
/// those addressed to `b`.
pub open spec fn issued_for(dests: Seq<Option<Seq<char>>>, b: Seq<char>) -> Seq<int>
    decreases dests.len(),
{
    if dests.len() == 0 {
        seq![]
    } else {
        let p = issued_for(dests.drop_last(), b);
        if dests.last() is None || dests.last() == Some(b) {
            p.push(dests.len() - 1)
        } else {
            p
        }
    }
}

/// A subscriber receives exactly the broadcasts and the packets addressed to it, in the order
/// in which they were issued. For the first subscriber this holds of runs that address no
/// packet to [`HEAD_NODE`].
pub proof fn lemma_per_subscriber_order(
    addrs: Seq<Seq<char>>,
    dests: Seq<Option<Seq<char>>>,
    k: int,
)
    requires
        0 <= k < addrs.len(),
        k == 0 ==> forall|i: int| 0 <= i < dests.len() ==> dests[i] != Some(head_node()),
    ensures
        stream_log(addrs, dests, k) == issued_for(dests, addrs[k]),
    decreases dests.len(),
{
    if dests.len() > 0 {
        lemma_per_subscriber_order(addrs, dests.drop_last(), k);
        if k == 0 {
            assert(dests.last() != Some(head_node()));
        }
    }
}

/// The outbound side of a peer: the addresses of its subscribers, in the order in which their
/// connections were accepted, and the sequence number of the next frame it sends.
///
/// A subscriber is never removed or moved; the transport keeps one stream per entry, in the
/// same order.
pub struct SubscriberTable {
    addrs: Vec<String>,
    next_seq: u32,
}

impl View for SubscriberTable {
    type V = Seq<Seq<char>>;

    closed spec fn view(&self) -> Seq<Seq<char>> {
        self.addrs@.map_values(|s: String| s@)
    }
}

impl SubscriberTable {
    /// The sequence number that the next frame carries.
    pub closed spec fn seq(&self) -> u32 {
        self.next_seq
    }

    /// A table with no subscriber, whose first frame carries sequence number 0.
    pub fn new() -> (t: SubscriberTable)
        ensures
            t@ == Seq::<Seq<char>>::empty(),
            t.seq() == 0,
    {
        let t = SubscriberTable { addrs: Vec::new(), next_seq: 0 };
        assert(t@ =~= Seq::<Seq<char>>::empty());
        t
    }

    /// Appends the subscriber whose connection was just accepted.
    pub fn accept(&mut self, addr: String)
        ensures
            final(self)@ == old(self)@.push(addr@),
            final(self).seq() == old(self).seq(),
    {
        self.addrs.push(addr);
        assert(self@ =~= old(self)@.push(addr@));
    }

    /// The number of subscribers.
    pub fn len(&self) -> (r: usize)
        ensures
            r == self@.len(),
    {
        self.addrs.len()
    }

    /// Whether every one of `n_neighbours` configured neighbours has subscribed.
    pub fn is_ready(&self, n_neighbours: usize) -> (r: bool)
        ensures
            r == (self@.len() == n_neighbours),
    {
        self.addrs.len() == n_neighbours
    }

    /// The addresses of the subscribers, in the order in which they subscribed.
    pub fn get_subscribers(&self) -> (r: Vec<String>)
        ensures
            r@.map_values(|s: String| s@) == self@,
    {
        let mut r: Vec<String> = Vec::new();
        let n = self.addrs.len();
        let mut i: usize = 0;
        while i < n
            invariant
                n == self.addrs@.len(),
                i <= n,
                r@.len() == i,
                forall|j: int| 0 <= j < i ==> #[trigger] r@[j]@ == self.addrs@[j]@,
            decreases n - i,
        {
            r.push(self.addrs[i].clone());
            i += 1;
        }
        assert(r@.map_values(|s: String| s@) =~= self@);
        r
    }

    /// The positions of the subscribers that a packet for `dest` is written to, in order.
    pub fn route(&self, dest: &Option<String>) -> (r: Vec<usize>)
        ensures
            r@ == routed(self@, dest_view(*dest)),
    {
        let head = head_node_string();
        let n = self.addrs.len();
        let mut r: Vec<usize> = Vec::new();
        let mut i: usize = 0;
        while i < n
            invariant
                n == self@.len(),
                n == self.addrs@.len(),
                i <= n,
                head@ == head_node(),
                r@ == route_prefix(self@, dest_view(*dest), i as nat),
            decreases n - i,
        {
            let hit = match dest {
                None => true,
                Some(d) => self.addrs[i] == *d || (i == 0 && *d == head),
            };
            assert(self@[i as int] == self.addrs@[i as int]@);
            assert(hit == routes_to(self@, dest_view(*dest), i as int));
            if hit {
                r.push(i);
            }
            i += 1;
        }
        r
    }

    /// Starts sending a packet for `dest`: the sequence number its frame carries and the
    /// positions of the subscribers it is written to. The next frame's sequence number is one
    /// more, wrapping around at `u32::MAX`.
    pub fn next_frame(&mut self, dest: &Option<String>) -> (r: (u32, Vec<usize>))
        ensures
            r.0 == old(self).seq(),
            r.1@ == routed(old(self)@, dest_view(*dest)),
            final(self)@ == old(self)@,
            final(self).seq() == old(self).seq().wrapping_add(1),
    {
        let targets = self.route(dest);
        let seq = self.next_seq;
        self.next_seq = self.next_seq.wrapping_add(1);
        (seq, targets)
    }
}

/// The frame that carries the serialised record `json`: the text followed by one line break.
pub fn frame_line(json: String) -> (r: String)
    ensures
        r@ == json@.push('\n'),
{
    let r = json.concat("\n");
    proof {
        reveal_strlit("\n");
    }
    assert(r@ =~= json@.push('\n'));
    r
}

/// [`HEAD_NODE`] as an owned string.
fn head_node_string() -> (r: String)
    ensures
        r@ == head_node(),
{
    let s = String::from_str(HEAD_NODE);
    proof {
        reveal_strlit("HEAD_NODE");
    }
    assert(s@ =~= head_node());
    s
}

} // verus!
