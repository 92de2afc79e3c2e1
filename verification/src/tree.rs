//! The accessibility-tree model and traversal.
//!
//! A [`UiNode`] holds what the locator reads of a live accessibility node:
//! the four queryable attributes, a screen position to act at, and the
//! children. Hosts build this model from their platform's tree; the library
//! owns everything done with it — matching, bounded depth-first traversal,
//! and text scraping. Traversal is bounded by a maximum depth to guard
//! against unbounded or cyclically-linked trees, and collects matches in
//! visitation order.

use vstd::prelude::*;

use crate::selector::{Attr, Predicate, PredicateV};

verus! {

/// The queryable attributes of one accessibility node.
#[derive(Debug)]
pub struct NodeAttrs {
    /// The accessibility role, if the node reports one.
    pub role: Option<String>,
    /// The name or title.
    pub name: Option<String>,
    /// The value.
    pub value: Option<String>,
    /// The description.
    pub description: Option<String>,
}

/// The mathematical value of a [`NodeAttrs`].
pub struct NodeAttrsV {
    pub role: Option<Seq<char>>,
    pub name: Option<Seq<char>>,
    pub value: Option<Seq<char>>,
    pub description: Option<Seq<char>>,
}

/// The view of one optional string attribute.
pub open spec fn opt_view(o: Option<String>) -> Option<Seq<char>> {
    match o {
        Some(s) => Some(s@),
        None => None,
    }
}

impl View for NodeAttrs {
    type V = NodeAttrsV;

    open spec fn view(&self) -> NodeAttrsV {
        NodeAttrsV {
            role: opt_view(self.role),
            name: opt_view(self.name),
            value: opt_view(self.value),
            description: opt_view(self.description),
        }
    }
}

/// Clones one optional string attribute.
fn clone_opt_string(o: &Option<String>) -> (r: Option<String>)
    ensures
        r == *o,
{
    match o {
        Some(s) => Some(s.clone()),
        None => None,
    }
}

impl Clone for NodeAttrs {
    fn clone(&self) -> (c: Self)
        ensures
            c == *self,
    {
        NodeAttrs {
            role: clone_opt_string(&self.role),
            name: clone_opt_string(&self.name),
            value: clone_opt_string(&self.value),
            description: clone_opt_string(&self.description),
        }
    }
}

/// Whether `needle` occurs contiguously inside `hay`.
pub open spec fn spec_contains(hay: Seq<char>, needle: Seq<char>) -> bool {
    exists|k: int|
        0 <= k <= hay.len() - needle.len() && #[trigger] hay.subrange(k, k + needle.len())
            == needle
}

/// Whether `needle` stands at position `k` of `hay`.
fn match_at(hay: &str, k: usize, needle: &str) -> (r: bool)
    requires
        k + needle@.len() <= hay@.len(),
    ensures
        r == (hay@.subrange(k as int, k + needle@.len()) == needle@),
{
    let m = needle.unicode_len();
    let h = hay.unicode_len();
    let mut j: usize = 0;
    while j < m
        invariant
            0 <= j <= m,
            m == needle@.len(),
            h == hay@.len(),
            k + m <= h,
            forall|j2: int| 0 <= j2 < j ==> hay@[k + j2] == needle@[j2],
        decreases m - j,
    {
        if hay.get_char(k + j) != needle.get_char(j) {
            proof {
                assert(hay@.subrange(k as int, k + needle@.len())[j as int] == hay@[k + j]);
            }
            return false;
        }
        j = j + 1;
    }
    proof {
        assert(hay@.subrange(k as int, k + needle@.len()) =~= needle@);
    }
    true
}

/// Whether one string contains another.
pub fn str_contains(hay: &str, needle: &str) -> (r: bool)
    ensures
        r == spec_contains(hay@, needle@),
{
    let h = hay.unicode_len();
    let m = needle.unicode_len();
    if m > h {
        return false;
    }
    if m == 0 {
        proof {
            assert(hay@.subrange(0, 0 + needle@.len() as int) =~= needle@);
        }
        return true;
    }
    let mut k: usize = 0;
    while k <= h - m
        invariant
            0 <= k <= h,
            1 <= m <= h,
            h == hay@.len(),
            m == needle@.len(),
            forall|k2: int|
                0 <= k2 < k ==> #[trigger] hay@.subrange(k2, k2 + needle@.len()) != needle@,
        decreases h - k,
    {
        if match_at(hay, k, needle) {
            return true;
        }
        k = k + 1;
    }
    false
}

/// The attribute of a node a predicate reads.
pub open spec fn spec_attr_of(n: NodeAttrsV, a: Attr) -> Option<Seq<char>> {
    match a {
        Attr::Role => n.role,
        Attr::Name => n.name,
        Attr::Value => n.value,
        Attr::Description => n.description,
    }
}

/// Whether one predicate holds of a node: the attribute must be present and
/// compare right — the role exactly, the textual attributes by containment.
pub open spec fn spec_pred_matches(n: NodeAttrsV, p: PredicateV) -> bool {
    match spec_attr_of(n, p.attr) {
        None => false,
        Some(v) => if p.attr is Role {
            v == p.value
        } else {
            spec_contains(v, p.value)
        },
    }
}

/// Whether every predicate of a conjunction holds of a node. An empty
/// conjunction matches every node.
pub open spec fn spec_preds_match(n: NodeAttrsV, ps: Seq<PredicateV>) -> bool {
    forall|i: int| 0 <= i < ps.len() ==> spec_pred_matches(n, #[trigger] ps[i])
}

/// Evaluates a conjunction of predicates against one node's attributes.
pub fn node_matches(attrs: &NodeAttrs, preds: &Vec<Predicate>) -> (r: bool)
    ensures
        r == spec_preds_match(attrs@, preds@.map_values(|p: Predicate| p@)),
{
    let ghost psv = preds@.map_values(|p: Predicate| p@);
    let n = preds.len();
    let mut i: usize = 0;
    while i < n
        invariant
            0 <= i <= n,
            n == preds@.len(),
            psv == preds@.map_values(|p: Predicate| p@),
            forall|j: int| 0 <= j < i ==> spec_pred_matches(attrs@, #[trigger] psv[j]),
        decreases n - i,
    {
        let p = &preds[i];
        let attr: &Option<String> = match p.attr {
            Attr::Role => &attrs.role,
            Attr::Name => &attrs.name,
            Attr::Value => &attrs.value,
            Attr::Description => &attrs.description,
        };
        let ok = match attr {
            None => false,
            Some(v) => {
                let is_role = match p.attr {
                    Attr::Role => true,
                    _ => false,
                };
                if is_role {
                    v.eq(&p.value)
                } else {
                    str_contains(v.as_str(), p.value.as_str())
                }
            },
        };
        if !ok {
            proof {
                assert(!spec_pred_matches(attrs@, psv[i as int]));
            }
            return false;
        }
        i = i + 1;
    }
    true
}

/// One node of the modelled accessibility tree.
pub struct UiNode {
    /// The queryable attributes.
    pub attrs: NodeAttrs,
    /// The x position actions against this node aim at.
    pub x: i32,
    /// The y position actions against this node aim at.
    pub y: i32,
    /// The children, in tree order.
    pub children: Vec<UiNode>,
}

/// What a traversal reports of one matching node: its attributes and the
/// position actions against it aim at. A live element handle is only valid
/// within the traversal that produced it; this is the part worth carrying
/// out of it.
#[derive(Debug)]
pub struct ElementInfo {
    /// The node's attributes at traversal time.
    pub attrs: NodeAttrs,
    /// The x position to act at.
    pub x: i32,
    /// The y position to act at.
    pub y: i32,
}

/// The mathematical value of an [`ElementInfo`].
pub struct ElementInfoV {
    pub attrs: NodeAttrsV,
    pub x: i32,
    pub y: i32,
}

impl View for ElementInfo {
    type V = ElementInfoV;

    open spec fn view(&self) -> ElementInfoV {
        ElementInfoV { attrs: self.attrs@, x: self.x, y: self.y }
    }
}

impl Clone for ElementInfo {
    fn clone(&self) -> (c: Self)
        ensures
            c == *self,
    {
        ElementInfo { attrs: self.attrs.clone(), x: self.x, y: self.y }
    }
}

/// The views of a sequence of reported elements.
pub open spec fn infos_view(s: Seq<ElementInfo>) -> Seq<ElementInfoV> {
    s.map_values(|e: ElementInfo| e@)
}

/// What one node reports when it matches.
pub open spec fn spec_info_of(n: UiNode) -> ElementInfoV {
    ElementInfoV { attrs: n.attrs@, x: n.x, y: n.y }
}

/// The matches a bounded depth-first traversal collects from one node, in
/// visitation order: the node itself first, then its children's matches,
/// left to right, descending at most `depth` more levels.
pub open spec fn dfs_hits(n: UiNode, preds: Seq<PredicateV>, depth: int) -> Seq<ElementInfoV>
    decreases depth, 0int,
{
    (if spec_preds_match(n.attrs@, preds) {
        seq![spec_info_of(n)]
    } else {
        Seq::empty()
    }) + (if depth > 0 {
        dfs_hits_list(n.children@, preds, depth - 1)
    } else {
        Seq::empty()
    })
}

/// The matches a bounded depth-first traversal collects from a list of
/// sibling nodes, left to right.
pub open spec fn dfs_hits_list(ns: Seq<UiNode>, preds: Seq<PredicateV>, depth: int) -> Seq<
    ElementInfoV,
>
    decreases depth, ns.len(),
{
    if ns.len() == 0 {
        Seq::empty()
    } else {
        dfs_hits(ns[0], preds, depth) + dfs_hits_list(ns.drop_first(), preds, depth)
    }
}

fn find_into(n: &UiNode, preds: &Vec<Predicate>, depth: usize, out: &mut Vec<ElementInfo>)
    ensures
        infos_view(final(out)@) == infos_view(old(out)@) + dfs_hits(
            *n,
            preds@.map_values(|p: Predicate| p@),
            depth as int,
        ),
    decreases depth, 0int,
{
    let ghost pre = infos_view(out@);
    if node_matches(&n.attrs, preds) {
        out.push(ElementInfo { attrs: n.attrs.clone(), x: n.x, y: n.y });
        proof {
            assert(infos_view(out@) =~= pre.push(spec_info_of(*n)));
        }
    }
    if depth > 0 {
        find_children(&n.children, 0, preds, depth - 1, out);
        proof {
            assert(n.children@.skip(0) =~= n.children@);
        }
    }
    proof {
        assert(infos_view(final(out)@) =~= pre + dfs_hits(
            *n,
            preds@.map_values(|p: Predicate| p@),
            depth as int,
        ));
    }
}

fn find_children(
    ns: &Vec<UiNode>,
    from: usize,
    preds: &Vec<Predicate>,
    depth: usize,
    out: &mut Vec<ElementInfo>,
)
    requires
        from <= ns@.len(),
    ensures
        infos_view(final(out)@) == infos_view(old(out)@) + dfs_hits_list(
            ns@.skip(from as int),
            preds@.map_values(|p: Predicate| p@),
            depth as int,
        ),
    decreases depth, ns@.len() - from,
{
    if from < ns.len() {
        find_into(&ns[from], preds, depth, out);
        find_children(ns, from + 1, preds, depth, out);
        proof {
            assert(ns@.skip(from as int)[0] == ns@[from as int]);
            assert(ns@.skip(from as int).drop_first() =~= ns@.skip(from + 1));
        }
    } else {
        proof {
            assert(ns@.skip(from as int) =~= Seq::<UiNode>::empty());
        }
    }
}

/// Collects, in visitation order, every node of the subtree under `root`
/// (descending at most `depth` levels) that every predicate matches.
pub fn find_matches(root: &UiNode, preds: &Vec<Predicate>, depth: usize) -> (out: Vec<ElementInfo>)
    ensures
        infos_view(out@) == dfs_hits(*root, preds@.map_values(|p: Predicate| p@), depth as int),
{
    let mut out: Vec<ElementInfo> = Vec::new();
    proof {
        assert(infos_view(out@) =~= Seq::<ElementInfoV>::empty());
    }
    find_into(root, preds, depth, &mut out);
    out
}


/// One piece of text scraped from the tree: the label (the node's role, or
/// `Unknown` where the node reports none) and the text itself.
#[derive(Debug)]
pub struct ScrapedMessage {
    /// The role of the node the text came from.
    pub label: String,
    /// The text found in one of the node's textual attributes.
    pub content: String,
}

/// The mathematical value of a [`ScrapedMessage`].
pub struct MsgV {
    pub label: Seq<char>,
    pub content: Seq<char>,
}

impl View for ScrapedMessage {
    type V = MsgV;

    open spec fn view(&self) -> MsgV {
        MsgV { label: self.label@, content: self.content@ }
    }
}

impl Clone for ScrapedMessage {
    fn clone(&self) -> (c: Self)
        ensures
            c == *self,
    {
        ScrapedMessage { label: self.label.clone(), content: self.content.clone() }
    }
}

/// The views of a sequence of scraped messages.
pub open spec fn msgs_view(s: Seq<ScrapedMessage>) -> Seq<MsgV> {
    s.map_values(|m: ScrapedMessage| m@)
}

/// The label scraped text is filed under.
pub open spec fn spec_role_label(a: NodeAttrsV) -> Seq<char> {
    match a.role {
        Some(r) => r,
        None => "Unknown"@,
    }
}

/// The messages one node's attributes contribute: its value, name and
/// description, each when present and longer than two characters — anything
/// shorter is decoration, not content.
pub open spec fn spec_attr_messages(a: NodeAttrsV) -> Seq<MsgV> {
    (if a.value is Some && a.value->0.len() > 2 {
        seq![MsgV { label: spec_role_label(a), content: a.value->0 }]
    } else {
        Seq::empty()
    }) + (if a.name is Some && a.name->0.len() > 2 {
        seq![MsgV { label: spec_role_label(a), content: a.name->0 }]
    } else {
        Seq::empty()
    }) + (if a.description is Some && a.description->0.len() > 2 {
        seq![MsgV { label: spec_role_label(a), content: a.description->0 }]
    } else {
        Seq::empty()
    })
}

/// The messages a bounded depth-first scrape collects from one node.
pub open spec fn spec_scrape(n: UiNode, depth: int) -> Seq<MsgV>
    decreases depth, 0int,
{
    spec_attr_messages(n.attrs@) + (if depth > 0 {
        spec_scrape_list(n.children@, depth - 1)
    } else {
        Seq::empty()
    })
}

/// The messages a bounded depth-first scrape collects from sibling nodes.
pub open spec fn spec_scrape_list(ns: Seq<UiNode>, depth: int) -> Seq<MsgV>
    decreases depth, ns.len(),
{
    if ns.len() == 0 {
        Seq::empty()
    } else {
        spec_scrape(ns[0], depth) + spec_scrape_list(ns.drop_first(), depth)
    }
}

fn role_label(a: &NodeAttrs) -> (r: String)
    ensures
        r@ == spec_role_label(a@),
{
    match &a.role {
        Some(s) => s.clone(),
        None => String::from_str("Unknown"),
    }
}

fn push_attr_msg(a: &NodeAttrs, v: &Option<String>, out: &mut Vec<ScrapedMessage>)
    ensures
        msgs_view(final(out)@) == msgs_view(old(out)@) + (if opt_view(*v) is Some && opt_view(
            *v,
        )->0.len() > 2 {
            seq![MsgV { label: spec_role_label(a@), content: opt_view(*v)->0 }]
        } else {
            Seq::<MsgV>::empty()
        }),
{
    let ghost pre = msgs_view(out@);
    match v {
        Some(text) => {
            if text.as_str().unicode_len() > 2 {
                out.push(ScrapedMessage { label: role_label(a), content: text.clone() });
                proof {
                    assert(msgs_view(out@) =~= pre.push(
                        MsgV { label: spec_role_label(a@), content: text@ },
                    ));
                }
            } else {
                proof {
                    assert(msgs_view(out@) =~= pre + Seq::<MsgV>::empty());
                }
            }
        },
        None => {
            proof {
                assert(msgs_view(out@) =~= pre + Seq::<MsgV>::empty());
            }
        },
    }
}

fn scrape_into(n: &UiNode, depth: usize, out: &mut Vec<ScrapedMessage>)
    ensures
        msgs_view(final(out)@) == msgs_view(old(out)@) + spec_scrape(*n, depth as int),
    decreases depth, 0int,
{
    let ghost pre = msgs_view(out@);
    push_attr_msg(&n.attrs, &n.attrs.value, out);
    push_attr_msg(&n.attrs, &n.attrs.name, out);
    push_attr_msg(&n.attrs, &n.attrs.description, out);
    proof {
        assert(msgs_view(out@) =~= pre + spec_attr_messages(n.attrs@));
    }
    if depth > 0 {
        scrape_children(&n.children, 0, depth - 1, out);
        proof {
            assert(n.children@.skip(0) =~= n.children@);
        }
    }
    proof {
        assert(msgs_view(final(out)@) =~= pre + spec_scrape(*n, depth as int));
    }
}

fn scrape_children(ns: &Vec<UiNode>, from: usize, depth: usize, out: &mut Vec<ScrapedMessage>)
    requires
        from <= ns@.len(),
    ensures
        msgs_view(final(out)@) == msgs_view(old(out)@) + spec_scrape_list(
            ns@.skip(from as int),
            depth as int,
        ),
    decreases depth, ns@.len() - from,
{
    if from < ns.len() {
        scrape_into(&ns[from], depth, out);
        scrape_children(ns, from + 1, depth, out);
        proof {
            assert(ns@.skip(from as int)[0] == ns@[from as int]);
            assert(ns@.skip(from as int).drop_first() =~= ns@.skip(from + 1));
        }
    } else {
        proof {
            assert(ns@.skip(from as int) =~= Seq::<UiNode>::empty());
        }
    }
}

/// Scrapes, in visitation order, every piece of text the subtree under
/// `root` shows in a value, name or description attribute, descending at
/// most `depth` levels.
pub fn scrape_tree(root: &UiNode, depth: usize) -> (out: Vec<ScrapedMessage>)
    ensures
        msgs_view(out@) == spec_scrape(*root, depth as int),
{
    let mut out: Vec<ScrapedMessage> = Vec::new();
    proof {
        assert(msgs_view(out@) =~= Seq::<MsgV>::empty());
    }
    scrape_into(root, depth, &mut out);
    out
}

/// What dropping consecutive repeats leaves of the messages from `i` on,
/// `last` being the content of the message kept just before.
pub open spec fn spec_dedup_from(s: Seq<MsgV>, i: int, last: Seq<char>) -> Seq<MsgV>
    decreases s.len() - i,
{
    if i < 0 || i >= s.len() {
        Seq::empty()
    } else if s[i].content == last {
        spec_dedup_from(s, i + 1, last)
    } else {
        seq![s[i]] + spec_dedup_from(s, i + 1, s[i].content)
    }
}

/// The messages with consecutive equal contents collapsed to the first.
pub open spec fn spec_dedup(s: Seq<MsgV>) -> Seq<MsgV> {
    if s.len() == 0 {
        Seq::empty()
    } else {
        seq![s[0]] + spec_dedup_from(s, 1, s[0].content)
    }
}

/// Drops every message whose content equals the content of the message kept
/// right before it, as a scrape of repeated tree regions produces them.
pub fn dedup_messages(msgs: &Vec<ScrapedMessage>) -> (out: Vec<ScrapedMessage>)
    ensures
        msgs_view(out@) == spec_dedup(msgs_view(msgs@)),
{
    let mut out: Vec<ScrapedMessage> = Vec::new();
    if msgs.len() == 0 {
        proof {
            assert(msgs_view(out@) =~= spec_dedup(msgs_view(msgs@)));
        }
        return out;
    }
    out.push(msgs[0].clone());
    let mut last: String = msgs[0].content.clone();
    let mut i: usize = 1;
    let ghost full = msgs_view(msgs@);
    proof {
        assert(msgs_view(out@) =~= seq![full[0]]);
    }
    while i < msgs.len()
        invariant
            1 <= i <= msgs@.len(),
            full == msgs_view(msgs@),
            msgs_view(out@) + spec_dedup_from(full, i as int, last@) == spec_dedup(full),
        decreases msgs@.len() - i,
    {
        let ghost pre = msgs_view(out@);
        if !msgs[i].content.eq(&last) {
            out.push(msgs[i].clone());
            last = msgs[i].content.clone();
            proof {
                assert(msgs_view(out@) =~= pre.push(full[i as int]));
            }
        }
        i = i + 1;
    }
    out
}

} // verus!
