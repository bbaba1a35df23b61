use vstd::prelude::*;

verus! {

/// Snapshot of a tailnet's lock state, as the status query reports it.
#[derive(Debug, Clone, PartialEq)]
pub struct LockStatus {
    pub enabled: bool,
    pub head: Vec<u32>,
    pub public_key: String,
    pub node_key: String,
    pub node_key_signed: bool,
    pub trusted_keys: Vec<TrustedKey>,
    pub visible_peers: Vec<Peer>,
    pub filtered_peers: Vec<Peer>,
}

/// A key allowed to co-sign lock operations, with its vote weight.
#[derive(Debug, Clone, PartialEq)]
pub struct TrustedKey {
    pub key: String,
    pub votes: u32,
}

/// One node of the tailnet.
#[derive(Debug, Clone, PartialEq)]
pub struct Peer {
    pub name: String,
    pub id: u64,
    pub stable_id: String,
    pub tailscale_ips: Vec<String>,
    pub node_key: String,
}

/// Name suffix shared by every Mullvad exit node (fully qualified, with the trailing dot).
pub open spec fn mullvad_suffix() -> Seq<char> {
    seq!['.', 'm', 'u', 'l', 'l', 'v', 'a', 'd', '.', 't', 's', '.', 'n', 'e', 't', '.']
}

/// Whether a peer name belongs to a Mullvad node.
pub open spec fn is_mullvad_name(name: Seq<char>) -> bool {
    has_suffix(name, mullvad_suffix())
}

/// A unit of signing work: (node key, name).
pub open spec fn target_view(t: (String, String)) -> (Seq<char>, Seq<char>) {
    (t.0@, t.1@)
}

/// The views of a list of signing targets.
pub open spec fn targets_view(ts: Seq<(String, String)>) -> Seq<(Seq<char>, Seq<char>)> {
    ts.map_values(|t: (String, String)| target_view(t))
}

/// The (node key, name) pairs of the Mullvad peers among `peers`, in their order.
pub open spec fn mullvad_targets(peers: Seq<Peer>) -> Seq<(Seq<char>, Seq<char>)>
    decreases peers.len(),
{
    if peers.len() == 0 {
        Seq::empty()
    } else {
        let last = peers.last();
        let rest = mullvad_targets(peers.drop_last());
        if is_mullvad_name(last.name@) {
            rest.push((last.node_key@, last.name@))
        } else {
            rest
        }
    }
}

/// The signing worklist: the Mullvad peers among the filtered peers, followed,
/// when `resign` holds, by the Mullvad peers among the visible ones.
pub open spec fn selection(status: LockStatus, resign: bool) -> Seq<(Seq<char>, Seq<char>)> {
    if resign {
        mullvad_targets(status.filtered_peers@) + mullvad_targets(status.visible_peers@)
    } else {
        mullvad_targets(status.filtered_peers@)
    }
}

/// Whether a peer is a Mullvad node.
pub open spec fn is_mullvad_peer(p: Peer) -> bool {
    is_mullvad_name(p.name@)
}

/// The (node key, name) pair that signs a peer.
pub open spec fn peer_target(p: Peer) -> (Seq<char>, Seq<char>) {
    (p.node_key@, p.name@)
}

proof fn lemma_targets_filter_map(peers: Seq<Peer>)
    ensures
        mullvad_targets(peers) == peers.filter(|p: Peer| is_mullvad_peer(p)).map_values(
            |p: Peer| peer_target(p),
        ),
    decreases peers.len(),
{
    reveal(Seq::filter);
    if peers.len() > 0 {
        lemma_targets_filter_map(peers.drop_last());
    }
    assert(mullvad_targets(peers) =~= peers.filter(|p: Peer| is_mullvad_peer(p)).map_values(
        |p: Peer| peer_target(p),
    ));
}

/// Without `resign` the worklist is exactly the filtered peers whose name ends with
/// the Mullvad suffix, in their order, as (node key, name) pairs; the visible peers
/// play no part in it.
pub proof fn lemma_selection_filtered_only(a: LockStatus, b: LockStatus)
    requires
        a.filtered_peers@ == b.filtered_peers@,
    ensures
        selection(a, false) == a.filtered_peers@.filter(|p: Peer| is_mullvad_peer(p)).map_values(
            |p: Peer| peer_target(p),
        ),
        selection(a, false) == selection(b, false),
{
    lemma_targets_filter_map(a.filtered_peers@);
}

/// With `resign` the worklist starts with the worklist without it, and goes on with
/// the visible peers whose name ends with the Mullvad suffix, in their order, with
/// no de-duplication against what came before.
pub proof fn lemma_selection_resign_extends(status: LockStatus)
    ensures
        selection(status, false).len() <= selection(status, true).len(),
        selection(status, true).subrange(0, selection(status, false).len() as int)
            == selection(status, false),
        selection(status, true).subrange(
            selection(status, false).len() as int,
            selection(status, true).len() as int,
        ) == status.visible_peers@.filter(|p: Peer| is_mullvad_peer(p)).map_values(
            |p: Peer| peer_target(p),
        ),
{
    lemma_targets_filter_map(status.visible_peers@);
    let f = selection(status, false);
    let t = selection(status, true);
    assert(t.subrange(0, f.len() as int) =~= f);
    assert(t.subrange(f.len() as int, t.len() as int) =~= mullvad_targets(status.visible_peers@));
}

/// True when `s` ends with `suffix`, compared character by character.
pub open spec fn has_suffix(s: Seq<char>, suffix: Seq<char>) -> bool {
    suffix.len() <= s.len() && s.subrange(s.len() - suffix.len(), s.len() as int) == suffix
}

/// Whether `s` ends with `suffix`.
pub fn ends_with(s: &str, suffix: &str) -> (r: bool)
    ensures
        r == has_suffix(s@, suffix@),
{
    let n: usize = s.unicode_len();
    let m: usize = suffix.unicode_len();
    if m > n {
        return false;
    }
    let off: usize = n - m;
    let mut i: usize = 0;
    while i < m
        invariant
            n == s@.len(),
            m == suffix@.len(),
            off + m == n,
            i <= m,
            forall|j: int| 0 <= j < i ==> s@[off + j] == suffix@[j],
        decreases m - i,
    {
        if s.get_char(off + i) != suffix.get_char(i) {
            assert(s@.subrange(off as int, n as int)[i as int] != suffix@[i as int]);
            return false;
        }
        i = i + 1;
    }
    assert(s@.subrange(off as int, n as int) =~= suffix@);
    true
}

/// Appends to `out` the (node key, name) pair of each Mullvad peer of `peers`, in order.
fn push_mullvad_targets(peers: &Vec<Peer>, out: &mut Vec<(String, String)>)
    ensures
        targets_view(final(out)@) == targets_view(old(out)@) + mullvad_targets(peers@),
{
    let suffix: &str = ".mullvad.ts.net.";
    proof {
        reveal_strlit(".mullvad.ts.net.");
    }
    assert(suffix@ =~= mullvad_suffix());
    let ghost start = targets_view(out@);
    let mut i: usize = 0;
    while i < peers.len()
        invariant
            suffix@ == mullvad_suffix(),
            i <= peers@.len(),
            targets_view(out@) == start + mullvad_targets(peers@.subrange(0, i as int)),
        decreases peers@.len() - i,
    {
        let p = &peers[i];
        proof {
            let pre = peers@.subrange(0, i as int + 1);
            assert(pre.drop_last() =~= peers@.subrange(0, i as int));
            assert(pre.last() == peers@[i as int]);
        }
        if ends_with(p.name.as_str(), suffix) {
            let t = (p.node_key.clone(), p.name.clone());
            let ghost before = out@;
            out.push(t);
            assert(targets_view(out@) =~= targets_view(before).push(target_view(t)));
        }
        i = i + 1;
    }
    assert(peers@.subrange(0, i as int) =~= peers@);
}

impl LockStatus {
    /// The signing worklist, as (node key, name) pairs: every filtered peer whose
    /// name ends with `.mullvad.ts.net.`, in order, then, when `resign` is set,
    /// every such visible peer, in order. Nothing is de-duplicated.
    pub fn select_mullvad_nodes(&self, resign: bool) -> (r: Vec<(String, String)>)
        ensures
            targets_view(r@) == selection(*self, resign),
    {
        let mut nodes: Vec<(String, String)> = Vec::new();
        push_mullvad_targets(&self.filtered_peers, &mut nodes);
        if resign {
            push_mullvad_targets(&self.visible_peers, &mut nodes);
        }
        nodes
    }
}

} // verus!
