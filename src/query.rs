use vstd::prelude::*;

verus! {

#[verifier::external_type_specification]
#[verifier::external_body]
pub struct ExQsError(serde_qs::Error);

/// The search endpoint; the encoded query follows it.
pub const API_BASE: &'static str = "https://wallhaven.cc/api/v1/search?";

/// How `serde_qs` writes one key or value of a query string: percent-encoded,
/// with spaces as `+`.
pub uninterp spec fn qs_escape(s: Seq<char>) -> Seq<char>;

/// Relies on serde_qs::to_string over a map of one entry: it writes the
/// escaped key, `=`, and the escaped value. With a string key and value it
/// cannot fail: the output goes to a `Vec<u8>` and is percent-encoded ASCII.
#[verifier::external_body]
fn encode_pair(key: &str, value: &str) -> (r: Result<String, serde_qs::Error>)
    ensures
        r is Ok,
        r matches Ok(s) ==> s@ == qs_escape(key@) + seq!['='] + qs_escape(value@),
{
    serde_qs::to_string(&std::collections::BTreeMap::from([(key, value)]))
}

/// The parameters of one image search.
pub struct WallhavenParams {
    pub sorting: String,
    pub order: String,
    pub seed: String,
    pub page: String,
    pub categories: String,
    pub purity: String,
    pub atleast: String,
    pub ratios: String,
    pub top_range: String,
    pub apikey: String,
}

/// One `key=value` part of a query string.
pub open spec fn pair_text(p: (Seq<char>, Seq<char>)) -> Seq<char> {
    qs_escape(p.0) + seq!['='] + qs_escape(p.1)
}

/// The query string of `pairs`: their parts in order, joined by `&`.
pub open spec fn query_text(pairs: Seq<(Seq<char>, Seq<char>)>) -> Seq<char>
    decreases pairs.len(),
{
    if pairs.len() == 0 {
        seq![]
    } else if pairs.len() == 1 {
        pair_text(pairs[0])
    } else {
        query_text(pairs.drop_last()) + seq!['&'] + pair_text(pairs.last())
    }
}

/// The parameters of a top-list search for the last three days: all
/// categories, general purity, 16:9 images of at least `atleast` pixels.
pub open spec fn toplist_pairs(atleast: Seq<char>, apikey: Seq<char>) -> Seq<(Seq<char>, Seq<char>)> {
    seq![
        ("sorting"@, "toplist"@),
        ("order"@, "desc"@),
        ("seed"@, "1"@),
        ("page"@, "1"@),
        ("categories"@, "111"@),
        ("purity"@, "100"@),
        ("atleast"@, atleast),
        ("ratios"@, "16x9"@),
        ("topRange"@, "3d"@),
        ("apikey"@, apikey),
    ]
}

/// The views of a list of query pairs.
pub open spec fn pairs_view(v: Seq<(String, String)>) -> Seq<(Seq<char>, Seq<char>)> {
    v.map_values(|p: (String, String)| (p.0@, p.1@))
}

impl WallhavenParams {
    /// The parameters in query order, under their names in the query.
    pub open spec fn pairs_spec(&self) -> Seq<(Seq<char>, Seq<char>)> {
        seq![
            ("sorting"@, self.sorting@),
            ("order"@, self.order@),
            ("seed"@, self.seed@),
            ("page"@, self.page@),
            ("categories"@, self.categories@),
            ("purity"@, self.purity@),
            ("atleast"@, self.atleast@),
            ("ratios"@, self.ratios@),
            ("topRange"@, self.top_range@),
            ("apikey"@, self.apikey@),
        ]
    }

    /// The top-list search of the last three days for images of at least
    /// `atleast` pixels.
    pub fn toplist(atleast: String, apikey: String) -> (r: WallhavenParams)
        ensures
            r.pairs_spec() == toplist_pairs(atleast@, apikey@),
    {
        WallhavenParams {
            sorting: String::from_str("toplist"),
            order: String::from_str("desc"),
            seed: String::from_str("1"),
            page: String::from_str("1"),
            categories: String::from_str("111"),
            purity: String::from_str("100"),
            atleast,
            ratios: String::from_str("16x9"),
            top_range: String::from_str("3d"),
            apikey,
        }
    }

    /// The parameters as `(name, value)` pairs, in query order.
    pub fn query_pairs(&self) -> (r: Vec<(String, String)>)
        ensures
            pairs_view(r@) == self.pairs_spec(),
    {
        let mut r: Vec<(String, String)> = Vec::new();
        r.push((String::from_str("sorting"), self.sorting.clone()));
        r.push((String::from_str("order"), self.order.clone()));
        r.push((String::from_str("seed"), self.seed.clone()));
        r.push((String::from_str("page"), self.page.clone()));
        r.push((String::from_str("categories"), self.categories.clone()));
        r.push((String::from_str("purity"), self.purity.clone()));
        r.push((String::from_str("atleast"), self.atleast.clone()));
        r.push((String::from_str("ratios"), self.ratios.clone()));
        r.push((String::from_str("topRange"), self.top_range.clone()));
        r.push((String::from_str("apikey"), self.apikey.clone()));
        assert(pairs_view(r@) =~= self.pairs_spec());
        r
    }

    /// The encoded query string of these parameters.
    pub fn to_query(&self) -> (r: String)
        ensures
            r@ == query_text(self.pairs_spec()),
    {
        let pairs = self.query_pairs();
        encode_query(&pairs)
    }
}

/// Encodes `(name, value)` pairs as a query string.
pub fn encode_query(pairs: &Vec<(String, String)>) -> (r: String)
    ensures
        r@ == query_text(pairs_view(pairs@)),
{
    let mut out = String::new();
    let mut i: usize = 0;
    while i < pairs.len()
        invariant
            i <= pairs.len(),
            out@ == query_text(pairs_view(pairs@).subrange(0, i as int)),
        decreases pairs.len() - i,
    {
        let part = match encode_pair(pairs[i].0.as_str(), pairs[i].1.as_str()) {
            Ok(p) => p,
            // never taken: `encode_pair` succeeds on any strings
            Err(_) => String::new(),
        };
        let ghost prefix = pairs_view(pairs@).subrange(0, i + 1);
        assert(prefix.drop_last() =~= pairs_view(pairs@).subrange(0, i as int));
        if i > 0 {
            out.append("&");
            proof {
                reveal_strlit("&");
            }
        }
        out.append(part.as_str());
        i = i + 1;
    }
    assert(pairs_view(pairs@).subrange(0, pairs.len() as int) =~= pairs_view(pairs@));
    out
}

/// The address of the top-list search for images of at least `atleast`
/// pixels, with the given API key.
pub fn wallpaper_search_url(atleast: String, apikey: String) -> (r: String)
    ensures
        r@ == API_BASE@ + query_text(toplist_pairs(atleast@, apikey@)),
{
    let params = WallhavenParams::toplist(atleast, apikey);
    let query = params.to_query();
    let mut url = String::from_str(API_BASE);
    url.append(query.as_str());
    url
}

/// The search query carries the caller's values exactly, each under its own
/// name, and no two parameters share a name, so reading the query back gives
/// one value per name.
pub proof fn lemma_toplist_carries_inputs(atleast: Seq<char>, apikey: Seq<char>)
    ensures
        toplist_pairs(atleast, apikey)[6] == ("atleast"@, atleast),
        toplist_pairs(atleast, apikey)[9] == ("apikey"@, apikey),
        forall|i: int, j: int|
            0 <= i < j < toplist_pairs(atleast, apikey).len() ==> toplist_pairs(atleast, apikey)[i].0
                != toplist_pairs(atleast, apikey)[j].0,
{
    reveal_strlit("sorting");
    reveal_strlit("order");
    reveal_strlit("seed");
    reveal_strlit("page");
    reveal_strlit("categories");
    reveal_strlit("purity");
    reveal_strlit("atleast");
    reveal_strlit("ratios");
    reveal_strlit("topRange");
    reveal_strlit("apikey");
    let p = toplist_pairs(atleast, apikey);
    assert forall|i: int, j: int| 0 <= i < j < p.len() implies p[i].0 != p[j].0 by {
        assert(p[i].0[0] != p[j].0[0] || p[i].0.len() != p[j].0.len() || p[i].0[1] != p[j].0[1]);
    }
}

} // verus!
