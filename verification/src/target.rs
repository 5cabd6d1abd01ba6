//! Work items: one base URL paired with one candidate path.

use vstd::prelude::*;
use vstd::string::*;

verus! {

/// One (base URL, path) pair to be probed.
#[derive(Debug, Clone, PartialEq, Eq)]
pub struct Target {
    pub base_url: String,
    pub path: String,
}

/// A target as two sequences of characters.
pub struct TargetView {
    pub base_url: Seq<char>,
    pub path: Seq<char>,
}

impl TargetView {
    /// The requested URL: the base URL followed verbatim by the path.
    pub open spec fn full_url(self) -> Seq<char> {
        self.base_url + self.path
    }
}

impl View for Target {
    type V = TargetView;

    open spec fn view(&self) -> TargetView {
        TargetView { base_url: self.base_url@, path: self.path@ }
    }
}

impl DeepView for Target {
    type V = TargetView;

    open spec fn deep_view(&self) -> TargetView {
        self@
    }
}

impl Target {
    /// Pairs a base URL with a path.
    pub fn new(base_url: &str, path: &str) -> (target: Target)
        ensures
            target@ == (TargetView { base_url: base_url@, path: path@ }),
    {
        Target { base_url: base_url.to_owned(), path: path.to_owned() }
    }

    /// Builds the requested URL by plain concatenation: nothing is escaped
    /// and no separator is added or removed.
    pub fn full_url(&self) -> (url: String)
        ensures
            url@ == self@.full_url(),
    {
        let mut url = String::new();
        url.append(self.base_url.as_str());
        url.append(self.path.as_str());
        assert(url@ =~= self@.full_url());
        url
    }
}

/// The batch of one path: that path paired with every URL, in the order of
/// the URL list.
pub open spec fn batch_spec(urls: Seq<Seq<char>>, path: Seq<char>) -> Seq<TargetView> {
    Seq::new(urls.len(), |j: int| TargetView { base_url: urls[j], path })
}

/// One batch per path, in the order of the path list.
pub open spec fn batches_spec(urls: Seq<Seq<char>>, paths: Seq<Seq<char>>) -> Seq<Seq<TargetView>> {
    Seq::new(paths.len(), |i: int| batch_spec(urls, paths[i]))
}

/// Every target of a run in the order in which it is generated: batch after
/// batch.
pub open spec fn all_targets(urls: Seq<Seq<char>>, paths: Seq<Seq<char>>) -> Seq<TargetView> {
    batches_spec(urls, paths).flatten()
}

/// Generates the batch of `path`. Repeated URLs give repeated targets.
pub fn batch(urls: &Vec<String>, path: &str) -> (targets: Vec<Target>)
    ensures
        targets.deep_view() == batch_spec(urls.deep_view(), path@),
{
    let mut targets: Vec<Target> = Vec::new();
    let mut j: usize = 0;
    while j < urls.len()
        invariant
            j <= urls.len(),
            targets.len() == j,
            forall|k: int|
                0 <= k < j ==> (#[trigger] targets[k])@ == (TargetView {
                    base_url: urls[k]@,
                    path: path@,
                }),
        decreases urls.len() - j,
    {
        targets.push(Target::new(urls[j].as_str(), path));
        j = j + 1;
    }
    assert(targets.deep_view() =~= batch_spec(urls.deep_view(), path@));
    targets
}

/// Generates the batches of a run: for each path, in order, the targets that
/// pair it with every URL, in order. An empty list of either kind leaves no
/// target.
pub fn batches(urls: &Vec<String>, paths: &Vec<String>) -> (all: Vec<Vec<Target>>)
    ensures
        all.deep_view() == batches_spec(urls.deep_view(), paths.deep_view()),
{
    let mut all: Vec<Vec<Target>> = Vec::new();
    let mut i: usize = 0;
    while i < paths.len()
        invariant
            i <= paths.len(),
            all.len() == i,
            forall|k: int|
                0 <= k < i ==> (#[trigger] all[k]).deep_view() == batch_spec(
                    urls.deep_view(),
                    paths[k]@,
                ),
        decreases paths.len() - i,
    {
        all.push(batch(urls, paths[i].as_str()));
        i = i + 1;
    }
    assert(all.deep_view() =~= batches_spec(urls.deep_view(), paths.deep_view()));
    all
}

/// The number of targets of a run is the product of the two list lengths.
pub proof fn lemma_target_count(urls: Seq<Seq<char>>, paths: Seq<Seq<char>>)
    ensures
        all_targets(urls, paths).len() == urls.len() * paths.len(),
    decreases paths.len(),
{
    let n = urls.len() as int;
    if paths.len() == 0 {
        assert(batches_spec(urls, paths) =~= Seq::<Seq<TargetView>>::empty());
        assert(n * 0 == 0) by (nonlinear_arith);
    } else {
        let front = paths.drop_last();
        lemma_target_count(urls, front);
        lemma_last_batch(urls, paths);
        assert(n * (front.len() + 1) == n * front.len() + n) by (nonlinear_arith);
    }
}

/// The targets of a run are those of all paths but the last, followed by the
/// batch of the last path.
proof fn lemma_last_batch(urls: Seq<Seq<char>>, paths: Seq<Seq<char>>)
    requires
        paths.len() > 0,
    ensures
        all_targets(urls, paths) == all_targets(urls, paths.drop_last()) + batch_spec(
            urls,
            paths.last(),
        ),
{
    let front = paths.drop_last();
    assert(batches_spec(urls, paths) =~= batches_spec(urls, front).push(
        batch_spec(urls, paths.last()),
    ));
    batches_spec(urls, front).lemma_flatten_push(batch_spec(urls, paths.last()));
}

/// The target at position `k` of a run pairs path `k / |urls|` with URL
/// `k % |urls|`: targets are grouped by path, and within a group they follow
/// the order of the URL list.
pub proof fn lemma_target_at(urls: Seq<Seq<char>>, paths: Seq<Seq<char>>, k: int)
    requires
        0 <= k < all_targets(urls, paths).len(),
    ensures
        0 <= k / (urls.len() as int) < paths.len(),
        0 <= k % (urls.len() as int) < urls.len(),
        all_targets(urls, paths)[k] == (TargetView {
            base_url: urls[k % (urls.len() as int)],
            path: paths[k / (urls.len() as int)],
        }),
    decreases paths.len(),
{
    let n = urls.len() as int;
    lemma_target_count(urls, paths);
    if paths.len() == 0 {
        assert(n * 0 == 0) by (nonlinear_arith);
    } else {
        let front = paths.drop_last();
        let m = front.len() as int;
        lemma_target_count(urls, front);
        lemma_last_batch(urls, paths);
        if k < n * m {
            lemma_target_at(urls, front, k);
            assert(front[k / n] == paths[k / n]);
        } else {
            assert(n * (m + 1) == n * m + n) by (nonlinear_arith);
            assert(k == m * n + (k - n * m)) by (nonlinear_arith);
            vstd::arithmetic::div_mod::lemma_fundamental_div_mod_converse(k, n, m, k - n * m);
            assert(all_targets(urls, paths)[k] == batch_spec(urls, paths.last())[k - n * m]);
        }
    }
}

} // verus!
