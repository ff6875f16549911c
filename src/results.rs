use vstd::prelude::*;

verus! {

/// How many results the launcher keeps from one backend update.
pub const MAX_RESULTS: usize = 10;

/// Where an icon is looked up: by theme name or by mime type.
#[derive(Debug, Clone, PartialEq, Eq)]
pub enum IconSource {
    Name(String),
    Mime(String),
}

/// One result of a search, as the backend reports it.
#[derive(Debug, Clone, PartialEq, Eq)]
pub struct SearchResult {
    pub id: u32,
    pub name: String,
    pub description: String,
    pub icon: Option<IconSource>,
    pub category_icon: Option<IconSource>,
    /// The existing window this result stands for, if any.
    pub window: Option<(u32, u32)>,
}

/// One entry of a result's context menu.
#[derive(Debug, Clone, PartialEq, Eq)]
pub struct ContextOption {
    pub id: u32,
    pub name: String,
}

impl SearchResult {
    pub open spec fn windowed(&self) -> bool {
        self.window is Some
    }
}

/// The results of `s` associated with an existing window, in their order.
pub open spec fn windowed_of(s: Seq<SearchResult>) -> Seq<SearchResult> {
    s.filter(|r: SearchResult| r.windowed())
}

/// The results of `s` with no window, in their order.
pub open spec fn plain_of(s: Seq<SearchResult>) -> Seq<SearchResult> {
    s.filter(|r: SearchResult| !r.windowed())
}

/// The stable partition of `s`: windowed results first, each group in its own order.
pub open spec fn partitioned(s: Seq<SearchResult>) -> Seq<SearchResult> {
    windowed_of(s) + plain_of(s)
}

/// What the launcher shows of a backend update: the partition, cut to its first ten.
pub open spec fn ranked(s: Seq<SearchResult>) -> Seq<SearchResult> {
    let p = partitioned(s);
    if p.len() <= MAX_RESULTS {
        p
    } else {
        p.take(MAX_RESULTS as int)
    }
}

proof fn lemma_filter_push(s: Seq<SearchResult>, x: SearchResult)
    ensures
        windowed_of(s.push(x)) == (if x.windowed() {
            windowed_of(s).push(x)
        } else {
            windowed_of(s)
        }),
        plain_of(s.push(x)) == (if x.windowed() {
            plain_of(s)
        } else {
            plain_of(s).push(x)
        }),
{
    reveal(Seq::filter);
    assert(s.push(x).drop_last() =~= s);
}

proof fn lemma_partition_len(s: Seq<SearchResult>)
    ensures
        partitioned(s).len() == s.len(),
    decreases s.len(),
{
    if s.len() > 0 {
        let t = s.drop_last();
        lemma_partition_len(t);
        assert(t.push(s.last()) =~= s);
        lemma_filter_push(t, s.last());
    } else {
        assert(windowed_of(s) =~= Seq::<SearchResult>::empty()) by { reveal(Seq::filter); }
        assert(plain_of(s) =~= Seq::<SearchResult>::empty()) by { reveal(Seq::filter); }
    }
}

pub proof fn lemma_ranked_len(s: Seq<SearchResult>)
    ensures
        ranked(s).len() <= MAX_RESULTS,
        ranked(s).len() == if s.len() <= MAX_RESULTS { s.len() } else { MAX_RESULTS as nat },
{
    lemma_partition_len(s);
}

/// The result pipeline: windowed results move ahead of the others, the order
/// within each group is kept, and at most ten are kept.
pub fn rank_results(list: Vec<SearchResult>) -> (r: Vec<SearchResult>)
    ensures
        r@ == ranked(list@),
        r@.len() <= MAX_RESULTS,
{
    let mut front: Vec<SearchResult> = Vec::new();
    let mut back: Vec<SearchResult> = Vec::new();
    let ghost l = list@;
    let mut rest = list;
    proof {
        assert(windowed_of(l.take(0)) =~= Seq::<SearchResult>::empty()) by { reveal(Seq::filter); }
        assert(plain_of(l.take(0)) =~= Seq::<SearchResult>::empty()) by { reveal(Seq::filter); }
    }
    let n: usize = rest.len();
    let mut i: usize = 0;
    while i < n
        invariant
            n == l.len(),
            i <= n,
            rest@ == l.skip(i as int),
            front@ == windowed_of(l.take(i as int)),
            back@ == plain_of(l.take(i as int)),
        decreases n - i,
    {
        let x = rest.remove(0);
        proof {
            assert(x == l[i as int]);
            assert(l.take(i as int + 1) =~= l.take(i as int).push(x));
            lemma_filter_push(l.take(i as int), x);
            assert(rest@ =~= l.skip(i + 1));
        }
        if x.window.is_some() {
            front.push(x);
        } else {
            back.push(x);
        }
        i = i + 1;
    }
    proof {
        assert(l.take(l.len() as int) =~= l);
        lemma_partition_len(l);
    }
    front.append(&mut back);
    front.truncate(MAX_RESULTS);
    front
}

} // verus!
