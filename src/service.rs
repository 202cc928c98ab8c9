//! Requests and answers of the service's REST interface, and their query
//! parameters.

use vstd::prelude::*;

use crate::models::{state_name, ImageFormat, ImageId, ImageState, OwnerId};
use crate::text::{hyphenated, pair_views, uuid_text};
use vstd::string::StringExecFns;

verus! {

/// The text of an owner: tenant and object id joined by an underscore.
pub open spec fn owner_text(o: OwnerId) -> Seq<char> {
    hyphenated(o.tenant_id) + seq!['_'] + hyphenated(o.oid)
}

impl ImageId {
    /// The hyphenated text of the id.
    pub fn to_text(&self) -> (r: String)
        ensures
            r@ == hyphenated(self.0),
    {
        uuid_text(self.0)
    }
}

impl OwnerId {
    /// The text of the owner: tenant and object id joined by an underscore.
    pub fn to_text(&self) -> (r: String)
        ensures
            r@ == owner_text(*self),
    {
        let tenant = uuid_text(self.tenant_id);
        let oid = uuid_text(self.oid);
        let head = tenant.concat("_");
        proof {
            reveal_strlit("_");
            assert("_"@ =~= seq!['_']);
        }
        head.concat(oid.as_str())
    }
}

/// The views of an optional text.
pub open spec fn opt_view(o: Option<String>) -> Option<Seq<char>> {
    match o {
        Some(s) => Some(s@),
        None => None,
    }
}

/// A query parameter, present where its value is.
pub open spec fn param(name: Seq<char>, value: Option<Seq<char>>) -> Seq<(Seq<char>, Seq<char>)> {
    match value {
        Some(v) => seq![(name, v)],
        None => Seq::empty(),
    }
}

/// The text of a flag.
pub open spec fn flag_text(b: bool) -> Seq<char> {
    if b {
        "true"@
    } else {
        "false"@
    }
}

/// Request to list images, also the query of the listing.
#[derive(Clone)]
pub struct ImageList {
    /// Only this image.
    pub image_id: Option<ImageId>,
    /// Only images of this owner.
    pub owner_id: Option<OwnerId>,
    /// Only images in this state.
    pub state: Option<ImageState>,
    /// Include the sample images.
    pub include_samples: bool,
    /// Cursor of the page to fetch; opaque.
    pub continuation: Option<String>,
}

/// The query parameters of an image listing, in field order, absent fields
/// left out.
pub open spec fn image_list_params(l: ImageList) -> Seq<(Seq<char>, Seq<char>)> {
    param(
        "image_id"@,
        match l.image_id {
            Some(i) => Some(hyphenated(i.0)),
            None => None,
        },
    ) + param(
        "owner_id"@,
        match l.owner_id {
            Some(o) => Some(owner_text(o)),
            None => None,
        },
    ) + param(
        "state"@,
        match l.state {
            Some(s) => Some(state_name(s)),
            None => None,
        },
    ) + seq![("include_samples"@, flag_text(l.include_samples))] + param(
        "continuation"@,
        opt_view(l.continuation),
    )
}

/// Append one parameter.
fn push_param(v: &mut Vec<(String, String)>, name: &str, value: String)
    ensures
        pair_views(final(v)@) == pair_views(old(v)@) + seq![(name@, value@)],
{
    v.push((name.to_owned(), value));
    assert(pair_views(v@) =~= pair_views(old(v)@) + seq![(name@, value@)]);
}

impl ImageList {
    /// The query parameters of the listing, in field order, absent fields
    /// left out.
    pub fn query_pairs(&self) -> (r: Vec<(String, String)>)
        ensures
            pair_views(r@) == image_list_params(*self),
    {
        let mut v: Vec<(String, String)> = Vec::new();
        assert(pair_views(v@) =~= Seq::empty());
        if let Some(i) = &self.image_id {
            push_param(&mut v, "image_id", i.to_text());
        }
        assert(pair_views(v@) =~= param(
            "image_id"@,
            match self.image_id {
                Some(i) => Some(hyphenated(i.0)),
                None => None,
            },
        ));
        let ghost after_id = pair_views(v@);
        if let Some(o) = &self.owner_id {
            push_param(&mut v, "owner_id", o.to_text());
        }
        assert(pair_views(v@) =~= after_id + param(
            "owner_id"@,
            match self.owner_id {
                Some(o) => Some(owner_text(o)),
                None => None,
            },
        ));
        let ghost after_owner = pair_views(v@);
        if let Some(s) = &self.state {
            push_param(&mut v, "state", s.as_str().to_owned());
        }
        assert(pair_views(v@) =~= after_owner + param(
            "state"@,
            match self.state {
                Some(s) => Some(state_name(s)),
                None => None,
            },
        ));
        let flag = if self.include_samples {
            "true"
        } else {
            "false"
        };
        push_param(&mut v, "include_samples", flag.to_owned());
        let ghost after_flag = pair_views(v@);
        if let Some(c) = &self.continuation {
            push_param(&mut v, "continuation", c.clone());
        }
        assert(pair_views(v@) =~= after_flag + param("continuation"@, opt_view(self.continuation)));
        v
    }
}

/// The query of a cursor-only listing: the cursor, where there is one.
pub fn continuation_pairs(continuation: &Option<String>) -> (r: Vec<(String, String)>)
    ensures
        pair_views(r@) == param("continuation"@, opt_view(*continuation)),
{
    let mut v: Vec<(String, String)> = Vec::new();
    assert(pair_views(v@) =~= Seq::empty());
    if let Some(c) = continuation {
        push_param(&mut v, "continuation", c.clone());
    }
    assert(pair_views(v@) =~= param("continuation"@, opt_view(*continuation)));
    v
}

/// Result of a request to analyze an image again.
pub struct ImageReanalyzeResponse(pub bool);

/// Result of a request to delete an image.
pub struct ImageDeleteResponse(pub bool);

/// Request to create an image.
pub struct ImageCreate {
    /// Format of the snapshot.
    pub format: ImageFormat,
    /// Metadata, with unique keys.
    pub tags: Vec<(String, String)>,
}

/// Request to update an image's metadata.
pub struct ImageUpdate {
    /// Where given, the new tags, with unique keys.
    pub tags: Option<Vec<(String, String)>>,
    /// Where given, the new shareable flag.
    pub shareable: Option<bool>,
}

/// Information about the service.
pub struct Info {
    /// Version of the API.
    pub api_version: String,
    /// Version of the models the service uses.
    pub models_version: String,
    /// Checksum of the current terms of use.
    pub current_eula: String,
    /// Snapshot formats the service supports.
    pub formats: Vec<ImageFormat>,
}

/// The default of a flag that is on unless stated otherwise.
pub fn bool_true() -> (r: bool)
    ensures
        r,
{
    true
}

/// Per-user settings.
pub struct UserConfig {
    /// Checksum of the terms the user accepted, if any.
    pub eula_accepted: Option<String>,
    /// Show the sample images in the web portal.
    pub include_samples: bool,
}

impl Default for UserConfig {
    fn default() -> (r: Self)
        ensures
            r.eula_accepted is None,
            r.include_samples,
    {
        UserConfig { eula_accepted: None, include_samples: bool_true() }
    }
}

/// Result of updating the user's settings.
pub struct UserConfigUpdateResponse(pub bool);

/// Request to list webhooks.
pub struct WebhooksListRequest {
    /// Cursor of the page to fetch; opaque.
    pub continuation: Option<String>,
}

/// Boolean result of a webhook request.
pub struct WebhookBoolResponse(pub bool);

/// Request to list the event log of a webhook.
pub struct WebhookLogListRequest {
    /// Cursor of the page to fetch; opaque.
    pub continuation: Option<String>,
}

/// All keys of `pairs` differ.
pub open spec fn unique_keys(pairs: Seq<(Seq<char>, Seq<char>)>) -> bool {
    forall|i: int, j: int|
        0 <= i < j < pairs.len() ==> (#[trigger] pairs[i]).0 != (#[trigger] pairs[j]).0
}

/// `key` is a key of `pairs`.
pub open spec fn has_key(pairs: Seq<(Seq<char>, Seq<char>)>, key: Seq<char>) -> bool {
    exists|i: int| 0 <= i < pairs.len() && (#[trigger] pairs[i]).0 == key
}

/// The value of the last pair of `pairs` with this key.
pub open spec fn last_value(pairs: Seq<(Seq<char>, Seq<char>)>, key: Seq<char>) -> Seq<char>
    decreases pairs.len(),
{
    if pairs.len() == 0 {
        Seq::empty()
    } else if pairs.last().0 == key {
        pairs.last().1
    } else {
        last_value(pairs.drop_last(), key)
    }
}

/// In `pairs`, key `a` first appears before key `b` does.
pub open spec fn appears_before(pairs: Seq<(Seq<char>, Seq<char>)>, a: Seq<char>, b: Seq<char>) -> bool {
    exists|p: int|
        0 <= p < pairs.len() && (#[trigger] pairs[p]).0 == a && forall|q: int|
            0 <= q <= p ==> (#[trigger] pairs[q]).0 != b
}

/// An order of first appearance holds in any extension of the pairs.
proof fn lemma_appears_before_extends(
    prefix: Seq<(Seq<char>, Seq<char>)>,
    next: Seq<(Seq<char>, Seq<char>)>,
    a: Seq<char>,
    b: Seq<char>,
)
    requires
        next.drop_last() == prefix,
        next.len() > 0,
        appears_before(prefix, a, b),
    ensures
        appears_before(next, a, b),
{
    let p = choose|p: int|
        0 <= p < prefix.len() && (#[trigger] prefix[p]).0 == a && forall|q: int|
            0 <= q <= p ==> (#[trigger] prefix[q]).0 != b;
    assert(next[p] == prefix[p]);
    assert forall|q: int| 0 <= q <= p implies (#[trigger] next[q]).0 != b by {
        assert(next[q] == prefix[q]);
    }
}

/// Collect key-value pairs into tags: one entry per key, in the order keys
/// first appear, each with the last value given for it.
pub fn as_tags(tags: Vec<(String, String)>) -> (r: Vec<(String, String)>)
    ensures
        unique_keys(pair_views(r@)),
        forall|k: Seq<char>| has_key(pair_views(r@), k) <==> has_key(pair_views(tags@), k),
        forall|i: int|
            0 <= i < r@.len() ==> (#[trigger] pair_views(r@)[i]).1 == last_value(
                pair_views(tags@),
                pair_views(r@)[i].0,
            ),
        forall|i: int, j: int|
            0 <= i < j < r@.len() ==> appears_before(
                pair_views(tags@),
                (#[trigger] pair_views(r@)[i]).0,
                (#[trigger] pair_views(r@)[j]).0,
            ),
{
    let ghost input = pair_views(tags@);
    let mut out: Vec<(String, String)> = Vec::new();
    assert(pair_views(out@) =~= Seq::empty());
    for item in it: tags
        invariant
            input == pair_views(it.seq()),
            unique_keys(pair_views(out@)),
            forall|k: Seq<char>|
                has_key(pair_views(out@), k) <==> has_key(
                    input.subrange(0, it.index() as int),
                    k,
                ),
            forall|i: int|
                0 <= i < out@.len() ==> (#[trigger] pair_views(out@)[i]).1 == last_value(
                    input.subrange(0, it.index() as int),
                    pair_views(out@)[i].0,
                ),
            forall|i: int, j: int|
                0 <= i < j < out@.len() ==> appears_before(
                    input.subrange(0, it.index() as int),
                    (#[trigger] pair_views(out@)[i]).0,
                    (#[trigger] pair_views(out@)[j]).0,
                ),
    {
        let ghost before = pair_views(out@);
        let ghost prefix = input.subrange(0, it.index() as int);
        let ghost next = input.subrange(0, it.index() + 1);
        assert(next.drop_last() =~= prefix);
        assert(next.last() == (item.0@, item.1@));
        let (k, v) = item;
        let mut j: usize = 0;
        let mut found = false;
        while j < out.len() && !found
            invariant
                pair_views(out@) == before,
                j <= out@.len(),
                found ==> j < out@.len() && before[j as int].0 == k@,
                forall|i: int| 0 <= i < j ==> (#[trigger] before[i]).0 != k@,
            decreases out@.len() - j + (if found {
                0int
            } else {
                1int
            }),
        {
            if out[j].0 == k {
                found = true;
            } else {
                j = j + 1;
            }
        }
        if found {
            let ghost old_out = out@;
            out.set(j, (k, v));
            proof {
                let now = pair_views(out@);
                assert forall|i: int| 0 <= i < out@.len() implies #[trigger] now[i] == if i == j {
                    (k@, v@)
                } else {
                    before[i]
                } by {}
                assert forall|key: Seq<char>| has_key(now, key) <==> has_key(next, key) by {
                    if has_key(now, key) {
                        let i = choose|i: int| 0 <= i < now.len() && (#[trigger] now[i]).0 == key;
                        if i == j {
                            assert(next[next.len() - 1].0 == key);
                        } else {
                            assert(before[i].0 == key);
                            assert(has_key(before, key));
                            assert(has_key(prefix, key));
                            let w = choose|w: int| 0 <= w < prefix.len() && (#[trigger] prefix[w]).0 == key;
                            assert(next[w] == prefix[w]);
                        }
                    }
                    if has_key(next, key) {
                        let w = choose|w: int| 0 <= w < next.len() && (#[trigger] next[w]).0 == key;
                        if w == next.len() - 1 {
                            assert(now[j as int].0 == key);
                        } else {
                            assert(prefix[w] == next[w]);
                            assert(has_key(prefix, key));
                            assert(has_key(before, key));
                            let i = choose|i: int| 0 <= i < before.len() && (#[trigger] before[i]).0 == key;
                            assert(now[i].0 == key);
                        }
                    }
                }
                assert forall|i: int| 0 <= i < out@.len() implies (#[trigger] now[i]).1
                    == last_value(next, now[i].0) by {
                    if i != j {
                        assert(before[i].0 != before[j as int].0);
                    }
                }
                assert forall|i: int, m: int| 0 <= i < m < out@.len() implies appears_before(
                    next,
                    (#[trigger] now[i]).0,
                    (#[trigger] now[m]).0,
                ) by {
                    assert(now[i].0 == before[i].0);
                    assert(now[m].0 == before[m].0);
                    assert(appears_before(prefix, before[i].0, before[m].0));
                    lemma_appears_before_extends(prefix, next, before[i].0, before[m].0);
                }
            }
        } else {
            out.push((k, v));
            proof {
                let now = pair_views(out@);
                assert(now =~= before.push((k@, v@)));
                assert forall|key: Seq<char>| has_key(now, key) <==> has_key(next, key) by {
                    if has_key(now, key) {
                        let i = choose|i: int| 0 <= i < now.len() && (#[trigger] now[i]).0 == key;
                        if i == before.len() {
                            assert(next[next.len() - 1].0 == key);
                        } else {
                            assert(before[i].0 == key);
                            assert(has_key(before, key));
                            assert(has_key(prefix, key));
                            let w = choose|w: int| 0 <= w < prefix.len() && (#[trigger] prefix[w]).0 == key;
                            assert(next[w] == prefix[w]);
                        }
                    }
                    if has_key(next, key) {
                        let w = choose|w: int| 0 <= w < next.len() && (#[trigger] next[w]).0 == key;
                        if w == next.len() - 1 {
                            assert(now[before.len() as int].0 == key);
                        } else {
                            assert(prefix[w] == next[w]);
                            assert(has_key(prefix, key));
                            assert(has_key(before, key));
                            let i = choose|i: int| 0 <= i < before.len() && (#[trigger] before[i]).0 == key;
                            assert(now[i].0 == key);
                        }
                    }
                }
                assert forall|i: int| 0 <= i < out@.len() implies (#[trigger] now[i]).1
                    == last_value(next, now[i].0) by {
                    if i < before.len() {
                        assert(now[i] == before[i]);
                    }
                }
                assert forall|i: int, m: int| 0 <= i < m < out@.len() implies appears_before(
                    next,
                    (#[trigger] now[i]).0,
                    (#[trigger] now[m]).0,
                ) by {
                    assert(now[i] == before[i]);
                    if m < before.len() {
                        assert(now[m] == before[m]);
                        assert(appears_before(prefix, before[i].0, before[m].0));
                        lemma_appears_before_extends(prefix, next, before[i].0, before[m].0);
                    } else {
                        assert(now[m].0 == k@);
                        assert(has_key(before, before[i].0));
                        assert(has_key(prefix, before[i].0));
                        let w = choose|w: int|
                            0 <= w < prefix.len() && (#[trigger] prefix[w]).0 == before[i].0;
                        assert(next[w] == prefix[w]);
                        assert forall|q: int| 0 <= q <= w implies (#[trigger] next[q]).0 != k@ by {
                            assert(next[q] == prefix[q]);
                            if prefix[q].0 == k@ {
                                assert(has_key(prefix, k@));
                                assert(has_key(before, k@));
                                let z = choose|z: int|
                                    0 <= z < before.len() && (#[trigger] before[z]).0 == k@;
                            }
                        }
                    }
                }
            }
        }
    }
    assert(input.subrange(0, input.len() as int) =~= input);
    out
}

} // verus!
