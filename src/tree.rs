//! A model of a directory tree, and of what the walker yields when its
//! caller lists that tree: the laws on completeness and error tolerance of
//! the walk are stated over it.
use vstd::prelude::*;
use crate::walk::{
    after_action, after_entry, closed, is_excluded_spec, opened, verdict_for, EntryKind, Verdict,
    WalkModel,
    FILE_ATTRIBUTE_SYSTEM,
};

verus! {

/// An entry of a directory tree.
pub enum FsNode {
    File,
    /// An entry marked as system or temporary.
    Excluded,
    /// A symbolic link, with the entries of whatever it points to.
    Symlink { target: Seq<FsNode> },
    /// A directory: its entries, or `None` when it cannot be listed.
    Dir { listing: Option<Seq<FsNode>> },
}

/// A directory's listing as the walker's stack holds it.
pub type Listing = Option<Seq<FsNode>>;

/// What the walk hands to its consumer.
pub enum Yielded {
    Entry(EntryKind),
    IoError,
    LinkError,
}

pub open spec fn kind_of(n: FsNode) -> EntryKind {
    match n {
        FsNode::Symlink { .. } => EntryKind::Symlink,
        FsNode::Dir { .. } => EntryKind::Directory,
        _ => EntryKind::File,
    }
}

pub open spec fn attributes_of(n: FsNode) -> u32 {
    match n {
        FsNode::Excluded => FILE_ATTRIBUTE_SYSTEM,
        _ => 0,
    }
}

pub open spec fn listing_of(n: FsNode) -> Listing {
    match n {
        FsNode::Dir { listing } => listing,
        _ => None,
    }
}

pub open spec fn prepend(y: Yielded, rest: Option<Seq<Yielded>>) -> Option<Seq<Yielded>> {
    match rest {
        Some(o) => Some(seq![y] + o),
        None => None,
    }
}

/// The walk driven by a caller that lists the tree: `cur` holds what is
/// left of the open listing. Each step performs the walker's own
/// transition; `None` when `fuel` steps are not enough.
pub open spec fn run(s: WalkModel<Listing>, cur: Seq<FsNode>, fuel: nat) -> Option<Seq<Yielded>>
    decreases fuel,
{
    if fuel == 0 {
        None
    } else if s.open {
        if cur.len() == 0 {
            run(closed(s), cur, (fuel - 1) as nat)
        } else {
            let n = cur[0];
            let k = kind_of(n);
            let a = attributes_of(n);
            let rest = run(after_entry(s, listing_of(n), k, a), cur.drop_first(), (fuel - 1) as nat);
            match verdict_for(k, a) {
                Verdict::Skip => rest,
                Verdict::Yield => prepend(Yielded::Entry(k), rest),
                Verdict::Link => prepend(Yielded::LinkError, rest),
            }
        }
    } else if s.pending.len() == 0 {
        Some(Seq::empty())
    } else {
        let next = after_action(s);
        match s.pending.last() {
            None => prepend(Yielded::IoError, run(next, cur, (fuel - 1) as nat)),
            Some(l) => run(opened(next), l, (fuel - 1) as nat),
        }
    }
}

pub open spec fn node_size(n: FsNode) -> nat
    decreases n,
{
    match n {
        FsNode::Dir { listing } => 1 + match listing {
            None => 1nat,
            Some(l) => 2 + nodes_size(l),
        },
        _ => 1,
    }
}

pub open spec fn nodes_size(l: Seq<FsNode>) -> nat
    decreases l,
{
    if l.len() == 0 {
        0
    } else {
        node_size(l[0]) + nodes_size(l.drop_first())
    }
}

pub open spec fn listing_size(l: Listing) -> nat {
    match l {
        None => 1,
        Some(l) => 2 + nodes_size(l),
    }
}

pub open spec fn pending_size(p: Seq<Listing>) -> nat
    decreases p.len(),
{
    if p.len() == 0 {
        0
    } else {
        pending_size(p.drop_last()) + listing_size(p.last())
    }
}

/// Counts of what a tree holds, or of what a walk yielded.
pub struct Tally {
    pub files: nat,
    pub dirs: nat,
    pub unreadable: nat,
    pub links: nat,
}

pub open spec fn zero() -> Tally {
    Tally { files: 0, dirs: 0, unreadable: 0, links: 0 }
}

pub open spec fn plus(a: Tally, b: Tally) -> Tally {
    Tally {
        files: a.files + b.files,
        dirs: a.dirs + b.dirs,
        unreadable: a.unreadable + b.unreadable,
        links: a.links + b.links,
    }
}

/// What a tree entry holds: files and directories that are not excluded,
/// directories that cannot be listed, and links. The entries behind a link
/// are not counted.
pub open spec fn tally_node(n: FsNode) -> Tally
    decreases n,
{
    match n {
        FsNode::File => Tally { files: 1, dirs: 0, unreadable: 0, links: 0 },
        FsNode::Excluded => zero(),
        FsNode::Symlink { .. } => Tally { files: 0, dirs: 0, unreadable: 0, links: 1 },
        FsNode::Dir { listing } => plus(
            Tally { files: 0, dirs: 1, unreadable: 0, links: 0 },
            match listing {
                None => Tally { files: 0, dirs: 0, unreadable: 1, links: 0 },
                Some(l) => tally_nodes(l),
            },
        ),
    }
}

pub open spec fn tally_nodes(l: Seq<FsNode>) -> Tally
    decreases l,
{
    if l.len() == 0 {
        zero()
    } else {
        plus(tally_node(l[0]), tally_nodes(l.drop_first()))
    }
}

/// What lies below a directory with this listing.
pub open spec fn tally_listing(l: Listing) -> Tally {
    match l {
        None => Tally { files: 0, dirs: 0, unreadable: 1, links: 0 },
        Some(l) => tally_nodes(l),
    }
}

pub open spec fn tally_pending(p: Seq<Listing>) -> Tally
    decreases p.len(),
{
    if p.len() == 0 {
        zero()
    } else {
        plus(tally_pending(p.drop_last()), tally_listing(p.last()))
    }
}

pub open spec fn tally_one(y: Yielded) -> Tally {
    match y {
        Yielded::Entry(EntryKind::File) => Tally { files: 1, dirs: 0, unreadable: 0, links: 0 },
        Yielded::Entry(EntryKind::Directory) => Tally { files: 0, dirs: 1, unreadable: 0, links: 0 },
        Yielded::Entry(EntryKind::Symlink) => zero(),
        Yielded::IoError => Tally { files: 0, dirs: 0, unreadable: 1, links: 0 },
        Yielded::LinkError => Tally { files: 0, dirs: 0, unreadable: 0, links: 1 },
    }
}

/// Counts of what a walk yielded: file and directory entries, I/O errors
/// and link errors.
pub open spec fn tally_yielded(o: Seq<Yielded>) -> Tally
    decreases o.len(),
{
    if o.len() == 0 {
        zero()
    } else {
        plus(tally_one(o[0]), tally_yielded(o.drop_first()))
    }
}

/// The walker started on a directory with this listing.
pub open spec fn walk_start(root: Listing) -> WalkModel<Listing> {
    WalkModel { pending: seq![root], open: false }
}

/// Everything a walk below a directory with this listing yields, run to
/// its end.
pub open spec fn walk_of(root: Listing) -> Option<Seq<Yielded>> {
    run(walk_start(root), Seq::empty(), listing_size(root) + 1)
}

pub open spec fn measure(s: WalkModel<Listing>, cur: Seq<FsNode>) -> nat {
    (if s.open {
        1 + nodes_size(cur)
    } else {
        0
    }) + pending_size(s.pending)
}

proof fn lemma_attributes()
    ensures
        !is_excluded_spec(0),
        is_excluded_spec(FILE_ATTRIBUTE_SYSTEM),
{
    assert(!(0u32 & 0x4u32 != 0 || 0u32 & 0x100u32 != 0)) by (bit_vector);
    assert(0x4u32 & 0x4u32 != 0) by (bit_vector);
}

proof fn lemma_prepend(y: Yielded, o: Seq<Yielded>)
    ensures
        tally_yielded(seq![y] + o) == plus(tally_one(y), tally_yielded(o)),
{
    assert((seq![y] + o).drop_first() =~= o);
}

proof fn lemma_push(p: Seq<Listing>, l: Listing)
    ensures
        tally_pending(p.push(l)) == plus(tally_pending(p), tally_listing(l)),
        pending_size(p.push(l)) == pending_size(p) + listing_size(l),
{
    assert(p.push(l).drop_last() =~= p);
}

proof fn lemma_run(s: WalkModel<Listing>, cur: Seq<FsNode>, fuel: nat)
    requires
        fuel > measure(s, cur),
    ensures
        run(s, cur, fuel) is Some,
        tally_yielded(run(s, cur, fuel)->0) == plus(
            if s.open {
                tally_nodes(cur)
            } else {
                zero()
            },
            tally_pending(s.pending),
        ),
    decreases fuel,
{
    let f = (fuel - 1) as nat;
    lemma_attributes();
    if s.open {
        if cur.len() == 0 {
            lemma_run(closed(s), cur, f);
        } else {
            let n = cur[0];
            let k = kind_of(n);
            let a = attributes_of(n);
            let s2 = after_entry(s, listing_of(n), k, a);
            assert(nodes_size(cur) == node_size(n) + nodes_size(cur.drop_first()));
            assert(tally_nodes(cur) == plus(tally_node(n), tally_nodes(cur.drop_first())));
            if let FsNode::Dir { listing } = n {
                assert(node_size(n) == 1 + listing_size(listing));
                assert(tally_node(n) == plus(
                    Tally { files: 0, dirs: 1, unreadable: 0, links: 0 },
                    tally_listing(listing),
                ));
                lemma_push(s.pending, listing);
            }
            lemma_run(s2, cur.drop_first(), f);
            let rest = run(s2, cur.drop_first(), f)->0;
            match verdict_for(k, a) {
                Verdict::Skip => {},
                Verdict::Yield => lemma_prepend(Yielded::Entry(k), rest),
                Verdict::Link => lemma_prepend(Yielded::LinkError, rest),
            }
        }
    } else if s.pending.len() > 0 {
        let next = after_action(s);
        assert(s.pending == next.pending.push(s.pending.last()));
        lemma_push(next.pending, s.pending.last());
        match s.pending.last() {
            None => {
                lemma_run(next, cur, f);
                lemma_prepend(Yielded::IoError, run(next, cur, f)->0);
            },
            Some(l) => {
                lemma_run(opened(next), l, f);
            },
        }
    }
}

/// A walk terminates, and yields exactly one entry for every file and
/// every directory of the tree, one I/O error for every directory that
/// cannot be listed, and one link error for every symbolic link: a
/// directory that cannot be listed costs its own contents and nothing of
/// its siblings'.
pub proof fn lemma_walk_is_complete(root: Listing)
    ensures
        walk_of(root) is Some,
        tally_yielded(walk_of(root)->0) == tally_listing(root),
{
    let s = walk_start(root);
    assert(s.pending.drop_last() =~= Seq::<Listing>::empty());
    assert(s.pending.last() == root);
    assert(pending_size(Seq::<Listing>::empty()) == 0);
    assert(tally_pending(Seq::<Listing>::empty()) == zero());
    assert(pending_size(s.pending) == listing_size(root));
    assert(tally_pending(s.pending) == tally_listing(root));
    lemma_run(s, Seq::empty(), listing_size(root) + 1);
}

proof fn lemma_tally_nodes_push(l: Seq<FsNode>, n: FsNode)
    ensures
        tally_nodes(l.push(n)) == plus(tally_nodes(l), tally_node(n)),
    decreases l.len(),
{
    if l.len() == 0 {
        assert(l.push(n).drop_first() =~= l);
    } else {
        assert(l.push(n).drop_first() =~= l.drop_first().push(n));
        lemma_tally_nodes_push(l.drop_first(), n);
    }
}

/// A symbolic link is reported and never followed: adding one to a
/// directory, whatever it points to, adds exactly one link error to the
/// walk and nothing else.
pub proof fn lemma_links_not_followed(entries: Seq<FsNode>, target: Seq<FsNode>)
    ensures
        walk_of(Some(entries)) is Some,
        walk_of(Some(entries.push(FsNode::Symlink { target }))) is Some,
        tally_yielded(walk_of(Some(entries.push(FsNode::Symlink { target })))->0) == plus(
            tally_yielded(walk_of(Some(entries))->0),
            Tally { files: 0, dirs: 0, unreadable: 0, links: 1 },
        ),
{
    let link = FsNode::Symlink { target };
    lemma_walk_is_complete(Some(entries));
    lemma_walk_is_complete(Some(entries.push(link)));
    lemma_tally_nodes_push(entries, link);
}

} // verus!
