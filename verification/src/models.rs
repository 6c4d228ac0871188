//! The view-model types the site renders, the recipe record written to the
//! repository, and sample data for pages that render without a backend.
use vstd::prelude::*;

use crate::clock::{rfc3339_seconds_of, rfc3339_to_unix};
use crate::encoding::{json_quote, json_quoted_of, query_encode, query_encoded_of};
use crate::strutil::{spec_dec, u64_to_dec};
use crate::xrpc::{spec_trim_slashes, trim_trailing_slashes};

verus! {

/// The profile record fetched after login; every field optional.
pub struct ProfileRecord {
    pub display_name: Option<String>,
    pub description: Option<String>,
    /// The content hash of the avatar blob, when one is set.
    pub avatar_cid: Option<String>,
    /// The content hash of the banner blob, when one is set.
    pub banner_cid: Option<String>,
    pub created_at: Option<String>,
}

/// One recipe in a listing.
pub struct Recipe {
    pub id: String,
    pub name: String,
    pub author_handle: String,
    pub time_ago: String,
    pub comment_count: u32,
}

/// A recipe page.
pub struct RecipeDetail {
    pub id: String,
    pub name: String,
    pub content: String,
    pub portions: u32,
    pub time: u32,
    pub author_handle: String,
    pub time_ago: String,
    pub comments: Vec<Comment>,
}

/// One comment, with its replies nested.
pub struct Comment {
    pub id: String,
    pub author_handle: String,
    pub text: String,
    pub time_ago: String,
    pub children: Vec<Comment>,
}

/// The new-recipe form as submitted.
pub struct RecipeForm {
    pub name: String,
    pub portions: u64,
    pub time: u64,
    pub content: String,
}

/// The recipe record as written to the repository: name, portions and time
/// (both at least one), the content, and the creation timestamp.
pub struct RecipeRecord {
    pub name: String,
    pub portions: u64,
    pub time: u64,
    pub content: String,
    pub created_at: String,
}

/// Builds the record from the form: empty portion or time counts are
/// raised to one, everything else carries over unchanged.
pub fn build_recipe_record(form: RecipeForm, created_at: String) -> (r: RecipeRecord)
    ensures
        r.name@ == form.name@,
        r.portions == (if form.portions >= 1 {
            form.portions
        } else {
            1u64
        }),
        r.time == (if form.time >= 1 {
            form.time
        } else {
            1u64
        }),
        r.content@ == form.content@,
        r.created_at@ == created_at@,
        r.portions >= 1,
        r.time >= 1,
{
    RecipeRecord {
        name: form.name,
        portions: if form.portions >= 1 {
            form.portions
        } else {
            1
        },
        time: if form.time >= 1 {
            form.time
        } else {
            1
        },
        content: form.content,
        created_at,
    }
}

/// The JSON text of a recipe record, fields in wire order.
pub open spec fn spec_recipe_record_json(r: &RecipeRecord) -> Seq<char> {
    "{\"name\":"@ + json_quoted_of(r.name@) + ",\"portions\":"@ + spec_dec(r.portions)
        + ",\"time\":"@ + spec_dec(r.time) + ",\"content\":"@ + json_quoted_of(r.content@)
        + ",\"createdAt\":"@ + json_quoted_of(r.created_at@) + "}"@
}

impl RecipeRecord {
    /// Serializes the record for a repository write.
    pub fn to_json(&self) -> (r: String)
        ensures
            r@ == spec_recipe_record_json(self),
    {
        let mut out = String::from_str("{\"name\":");
        out.append(json_quote(self.name.as_str()).as_str());
        out.append(",\"portions\":");
        out.append(u64_to_dec(self.portions).as_str());
        out.append(",\"time\":");
        out.append(u64_to_dec(self.time).as_str());
        out.append(",\"content\":");
        out.append(json_quote(self.content.as_str()).as_str());
        out.append(",\"createdAt\":");
        out.append(json_quote(self.created_at.as_str()).as_str());
        out.append("}");
        proof {
            assert(out@ =~= spec_recipe_record_json(self));
        }
        out
    }
}

/// The age label for an item `secs` seconds old: "just now" under a
/// minute, then minutes, hours past an hour, days past a day.
pub open spec fn spec_time_ago_label(secs: i64) -> Seq<char> {
    if secs < 60 {
        "just now"@
    } else if secs < 3600 {
        spec_dec((secs / 60) as u64) + " min ago"@
    } else if secs < 86400 {
        spec_dec((secs / 3600) as u64) + " hours ago"@
    } else {
        spec_dec((secs / 86400) as u64) + " days ago"@
    }
}

/// Renders the age label of an item `secs` seconds old.
pub fn time_ago_label(secs: i64) -> (r: String)
    ensures
        r@ == spec_time_ago_label(secs),
{
    if secs < 60 {
        String::from_str("just now")
    } else if secs < 3600 {
        let mut out = u64_to_dec((secs / 60) as u64);
        out.append(" min ago");
        out
    } else if secs < 86400 {
        let mut out = u64_to_dec((secs / 3600) as u64);
        out.append(" hours ago");
        out
    } else {
        let mut out = u64_to_dec((secs / 86400) as u64);
        out.append(" days ago");
        out
    }
}

/// The age label on the long scale used by rendered pages: minutes,
/// hours, days, then months (thirty days each) and years (365 days each).
pub open spec fn spec_elapsed_label(secs: i64) -> Seq<char> {
    if secs < 60 {
        "just now"@
    } else if secs < 3600 {
        spec_dec((secs / 60) as u64) + " min ago"@
    } else if secs < 86400 {
        spec_dec((secs / 3600) as u64) + " hours ago"@
    } else if secs / 86400 < 30 {
        spec_dec((secs / 86400) as u64) + " days ago"@
    } else if secs / 86400 < 365 {
        spec_dec((secs / 86400 / 30) as u64) + " months ago"@
    } else {
        spec_dec((secs / 86400 / 365) as u64) + " years ago"@
    }
}

/// Renders the long-scale age label of an item `secs` seconds old.
pub fn format_elapsed(secs: i64) -> (r: String)
    ensures
        r@ == spec_elapsed_label(secs),
{
    if secs < 60 {
        String::from_str("just now")
    } else if secs < 3600 {
        let mut out = u64_to_dec((secs / 60) as u64);
        out.append(" min ago");
        out
    } else if secs < 86400 {
        let mut out = u64_to_dec((secs / 3600) as u64);
        out.append(" hours ago");
        out
    } else if secs / 86400 < 30 {
        let mut out = u64_to_dec((secs / 86400) as u64);
        out.append(" days ago");
        out
    } else if secs / 86400 < 365 {
        let mut out = u64_to_dec((secs / 86400 / 30) as u64);
        out.append(" months ago");
        out
    } else {
        let mut out = u64_to_dec((secs / 86400 / 365) as u64);
        out.append(" years ago");
        out
    }
}

/// The age label of an item created at an RFC 3339 instant, seen from
/// `now` (seconds since the Unix epoch): "recently" when the timestamp
/// does not parse, else the label of the elapsed seconds.
pub fn time_ago(created_at: &str, now: i64) -> (r: String)
    ensures
        rfc3339_seconds_of(created_at@) is None ==> r@ == "recently"@,
        rfc3339_seconds_of(created_at@) matches Option::Some(t) ==> (t <= now && now - t
            <= i64::MAX ==> r@ == spec_time_ago_label((now - t) as i64)),
        rfc3339_seconds_of(created_at@) matches Option::Some(t) ==> (t > now ==> r@
            == "just now"@),
{
    match rfc3339_to_unix(created_at) {
        Option::None => String::from_str("recently"),
        Option::Some(t) => {
            let diff: i128 = (now as i128) - (t as i128);
            let secs: i64 = if diff < 0 {
                0
            } else if diff > (i64::MAX as i128) {
                i64::MAX
            } else {
                diff as i64
            };
            time_ago_label(secs)
        },
    }
}

/// The name of sample recipe `k` (zero-based), as both the listing and the
/// page show it.
pub open spec fn mock_recipe_name(k: int) -> Seq<char> {
    if k == 0 {
        "Perfect Sourdough Bread"@
    } else if k == 1 {
        "One-Pan Lemon Chicken"@
    } else if k == 2 {
        "Classic Beef Bourguignon"@
    } else if k == 3 {
        "Homemade Pasta from Scratch"@
    } else if k == 4 {
        "Thai Green Curry"@
    } else if k == 5 {
        "New York Style Pizza Dough"@
    } else if k == 6 {
        "Creamy Mushroom Risotto"@
    } else if k == 7 {
        "Crispy Korean Fried Chicken"@
    } else if k == 8 {
        "Classic French Onion Soup"@
    } else if k == 9 {
        "Chocolate Lava Cake"@
    } else {
        Seq::empty()
    }
}

/// The author handle of sample recipe `k`.
pub open spec fn mock_recipe_author(k: int) -> Seq<char> {
    if k == 0 {
        "breadmaster"@
    } else if k == 1 {
        "quickmeals"@
    } else if k == 2 {
        "frenchcooking"@
    } else if k == 3 {
        "pastamaker"@
    } else if k == 4 {
        "spicylove"@
    } else if k == 5 {
        "pizzapro"@
    } else if k == 6 {
        "italianfood"@
    } else if k == 7 {
        "seoulcooking"@
    } else if k == 8 {
        "soupmaster"@
    } else if k == 9 {
        "sweetooth"@
    } else {
        Seq::empty()
    }
}

/// The age label of sample recipe `k`.
pub open spec fn mock_recipe_age(k: int) -> Seq<char> {
    if k == 0 {
        "3 hours ago"@
    } else if k == 1 {
        "5 hours ago"@
    } else if k == 2 {
        "7 hours ago"@
    } else if k == 3 {
        "8 hours ago"@
    } else if k == 4 {
        "10 hours ago"@
    } else if k == 5 {
        "12 hours ago"@
    } else if k == 6 {
        "14 hours ago"@
    } else if k == 7 {
        "16 hours ago"@
    } else if k == 8 {
        "18 hours ago"@
    } else if k == 9 {
        "20 hours ago"@
    } else {
        Seq::empty()
    }
}

/// The sample recipes shown before any real data exists: ten entries whose
/// ids are the decimals one through ten, in order, each with its fixed
/// name, author and age label.
pub fn get_mock_recipes() -> (r: Vec<Recipe>)
    ensures
        r@.len() == 10,
        forall|k: int| 0 <= k < 10 ==> (#[trigger] r@[k]).id@ == spec_dec((k + 1) as u64),
        forall|k: int|
            0 <= k < 10 ==> (#[trigger] r@[k]).name@ == mock_recipe_name(k)
                && r@[k].author_handle@ == mock_recipe_author(k) && r@[k].time_ago@
                == mock_recipe_age(k),
{
    let mut v: Vec<Recipe> = Vec::new();
    v.push(
        Recipe {
            id: u64_to_dec(1),
            name: String::from_str("Perfect Sourdough Bread"),
            author_handle: String::from_str("breadmaster"),
            time_ago: String::from_str("3 hours ago"),
            comment_count: 12,
        },
    );
    v.push(
        Recipe {
            id: u64_to_dec(2),
            name: String::from_str("One-Pan Lemon Chicken"),
            author_handle: String::from_str("quickmeals"),
            time_ago: String::from_str("5 hours ago"),
            comment_count: 8,
        },
    );
    v.push(
        Recipe {
            id: u64_to_dec(3),
            name: String::from_str("Classic Beef Bourguignon"),
            author_handle: String::from_str("frenchcooking"),
            time_ago: String::from_str("7 hours ago"),
            comment_count: 15,
        },
    );
    v.push(
        Recipe {
            id: u64_to_dec(4),
            name: String::from_str("Homemade Pasta from Scratch"),
            author_handle: String::from_str("pastamaker"),
            time_ago: String::from_str("8 hours ago"),
            comment_count: 6,
        },
    );
    v.push(
        Recipe {
            id: u64_to_dec(5),
            name: String::from_str("Thai Green Curry"),
            author_handle: String::from_str("spicylove"),
            time_ago: String::from_str("10 hours ago"),
            comment_count: 9,
        },
    );
    v.push(
        Recipe {
            id: u64_to_dec(6),
            name: String::from_str("New York Style Pizza Dough"),
            author_handle: String::from_str("pizzapro"),
            time_ago: String::from_str("12 hours ago"),
            comment_count: 22,
        },
    );
    v.push(
        Recipe {
            id: u64_to_dec(7),
            name: String::from_str("Creamy Mushroom Risotto"),
            author_handle: String::from_str("italianfood"),
            time_ago: String::from_str("14 hours ago"),
            comment_count: 5,
        },
    );
    v.push(
        Recipe {
            id: u64_to_dec(8),
            name: String::from_str("Crispy Korean Fried Chicken"),
            author_handle: String::from_str("seoulcooking"),
            time_ago: String::from_str("16 hours ago"),
            comment_count: 18,
        },
    );
    v.push(
        Recipe {
            id: u64_to_dec(9),
            name: String::from_str("Classic French Onion Soup"),
            author_handle: String::from_str("soupmaster"),
            time_ago: String::from_str("18 hours ago"),
            comment_count: 4,
        },
    );
    v.push(
        Recipe {
            id: u64_to_dec(10),
            name: String::from_str("Chocolate Lava Cake"),
            author_handle: String::from_str("sweetooth"),
            time_ago: String::from_str("20 hours ago"),
            comment_count: 11,
        },
    );
    proof {
        assert forall|k: int| 0 <= k < 10 implies (#[trigger] v@[k]).id@ == spec_dec((k + 1) as u64)
        by {
            reveal_with_fuel(crate::strutil::spec_dec0, 3);
        }
        assert forall|k: int|
            0 <= k < 10 implies (#[trigger] v@[k]).name@ == mock_recipe_name(k)
                && v@[k].author_handle@ == mock_recipe_author(k) && v@[k].time_ago@
                == mock_recipe_age(k) by {}
    }
    v
}

/// Looks up one sample recipe page by id: the first two ids carry full
/// write-ups with comments, the rest of the ten get a placeholder body;
/// any other id has no page.
pub fn get_mock_recipe_detail(id: &str) -> (r: Option<RecipeDetail>)
    ensures
        r is Some <==> exists|k: u64| 1 <= k <= 10 && id@ == spec_dec(k),
        r matches Option::Some(d) ==> d.id@ == id@,
        r matches Option::Some(d) ==> exists|k: int|
            {
                &&& 0 <= k < 10
                &&& id@ == #[trigger] spec_dec((k + 1) as u64)
                &&& d.name@ == mock_recipe_name(k)
                &&& d.author_handle@ == mock_recipe_author(k)
                &&& d.time_ago@ == mock_recipe_age(k)
            },
        id@ == "1"@ ==> (r matches Option::Some(d) && d.name@ == "Perfect Sourdough Bread"@
            && d.comments@.len() == 2),
        id@ == "2"@ ==> (r matches Option::Some(d) && d.name@ == "One-Pan Lemon Chicken"@
            && d.comments@.len() == 1),
{
    let recipes = get_mock_recipes();
    if crate::strutil::str_eq(id, "1") {
        proof {
            reveal_strlit("1");
            reveal_strlit("2");
            reveal_with_fuel(crate::strutil::spec_dec0, 2);
            assert(id@ == spec_dec(1));
            assert(id@ == spec_dec((0 + 1) as u64));
            if id@ == "2"@ {
                assert("1"@[0] == "2"@[0]);
                assert(false);
            }
        }
        return Option::Some(
            RecipeDetail {
                id: String::from_str("1"),
                name: String::from_str("Perfect Sourdough Bread"),
                content: String::from_str(
                    "A crusty, tangy sourdough with an open crumb. This recipe uses a mature starter and a long cold ferment for maximum flavor development.\n\nMix @bread flour{500%g} and @water{350%g}, autolyse for ~{30%minutes}.\n\nAdd @sourdough starter{100%g} and @salt{10%g}, mix until combined.\n\nPerform 4 sets of stretch and folds over ~{2%hours}.\n\nBulk ferment at room temperature for ~{4-6%hours} until doubled.\n\nShape into a boule and place in a #banneton.\n\nCold retard in #refrigerator for ~{12-16%hours}.\n\nPreheat #Dutch oven to 500F (260C).\n\nScore and bake covered for ~{20%minutes}, then uncovered for ~{25%minutes}.",
                ),
                portions: 1,
                time: 75,
                author_handle: String::from_str("breadmaster"),
                time_ago: String::from_str("3 hours ago"),
                comments: mock_comments_sourdough(),
            },
        );
    }
    if crate::strutil::str_eq(id, "2") {
        proof {
            reveal_strlit("1");
            reveal_strlit("2");
            reveal_with_fuel(crate::strutil::spec_dec0, 2);
            assert(id@ == spec_dec(2));
            assert(id@ == spec_dec((1 + 1) as u64));
            if id@ == "1"@ {
                assert("1"@[0] == "2"@[0]);
                assert(false);
            }
        }
        return Option::Some(
            RecipeDetail {
                id: String::from_str("2"),
                name: String::from_str("One-Pan Lemon Chicken"),
                content: String::from_str(
                    "Juicy chicken thighs with crispy skin, roasted with lemon and herbs. Everything cooks in one pan for easy cleanup.\n\nPreheat #oven to 425F (220C).\n\nSeason @chicken thighs{6%bone-in, skin-on} with @salt{}, @pepper{}, @dried thyme{1%tsp}, and @dried oregano{1%tsp}.\n\nHeat @olive oil{2%tbsp} in #oven-safe skillet{} over medium-high heat.\n\nSear chicken skin-side down for ~{5%minutes} until golden.\n\nFlip chicken, add @garlic{4%cloves, minced} and @lemons{2%sliced}.\n\nRoast for ~{25-30%minutes} until internal temp reaches 165F.\n\nRest for ~{5%minutes} and serve.",
                ),
                portions: 4,
                time: 45,
                author_handle: String::from_str("quickmeals"),
                time_ago: String::from_str("5 hours ago"),
                comments: mock_comments_chicken(),
            },
        );
    }
    let n = recipes.len();
    let mut i: usize = 0;
    while i < n
        invariant
            i <= n,
            n == recipes@.len(),
            n == 10,
            id@ != "1"@,
            id@ != "2"@,
            forall|k: int| 0 <= k < 10 ==> (#[trigger] recipes@[k]).id@ == spec_dec((k + 1) as u64),
            forall|k: int|
                0 <= k < 10 ==> (#[trigger] recipes@[k]).name@ == mock_recipe_name(k)
                    && recipes@[k].author_handle@ == mock_recipe_author(k)
                    && recipes@[k].time_ago@ == mock_recipe_age(k),
            forall|k: int| 0 <= k < i ==> (#[trigger] recipes@[k]).id@ != id@,
        decreases n - i,
    {
        if crate::strutil::str_eq(recipes[i].id.as_str(), id) {
            let rec = Recipe {
                id: recipes[i].id.clone(),
                name: recipes[i].name.clone(),
                author_handle: recipes[i].author_handle.clone(),
                time_ago: recipes[i].time_ago.clone(),
                comment_count: recipes[i].comment_count,
            };
            proof {
                assert(1 <= ((i + 1) as u64) <= 10 && id@ == spec_dec((i + 1) as u64));
                assert(id@ == spec_dec((i as int + 1) as u64));
                assert(recipes@[i as int].name@ == mock_recipe_name(i as int));
            }
            return Option::Some(
                RecipeDetail {
                    id: rec.id,
                    name: rec.name,
                    content: String::from_str(
                        "A delicious recipe waiting to be explored.\n\nPrepare all @ingredients{}.\n\nCook according to your preference.\n\nServe and enjoy!",
                    ),
                    portions: 4,
                    time: 45,
                    author_handle: rec.author_handle,
                    time_ago: rec.time_ago,
                    comments: Vec::new(),
                },
            );
        }
        i = i + 1;
    }
    proof {
        if exists|k: u64| 1 <= k <= 10 && id@ == spec_dec(k) {
            let k = choose|k: u64| 1 <= k <= 10 && id@ == spec_dec(k);
            assert(recipes@[k as int - 1].id@ == spec_dec(k));
        }
    }
    Option::None
}

fn mock_comments_sourdough() -> (r: Vec<Comment>)
    ensures
        r@.len() == 2,
{
    let mut reply1: Vec<Comment> = Vec::new();
    reply1.push(
        Comment {
            id: String::from_str("c2"),
            author_handle: String::from_str("breadmaster"),
            text: String::from_str("Thanks! The long cold ferment is the secret."),
            time_ago: String::from_str("1 hour ago"),
            children: Vec::new(),
        },
    );
    let mut reply2: Vec<Comment> = Vec::new();
    reply2.push(
        Comment {
            id: String::from_str("c4"),
            author_handle: String::from_str("breadmaster"),
            text: String::from_str(
                "Use a baking stone with a pan of water underneath for steam.",
            ),
            time_ago: String::from_str("45 minutes ago"),
            children: Vec::new(),
        },
    );
    let mut comments: Vec<Comment> = Vec::new();
    comments.push(
        Comment {
            id: String::from_str("c1"),
            author_handle: String::from_str("homebaker"),
            text: String::from_str("This is the best sourdough recipe I've tried!"),
            time_ago: String::from_str("2 hours ago"),
            children: reply1,
        },
    );
    comments.push(
        Comment {
            id: String::from_str("c3"),
            author_handle: String::from_str("breadnewbie"),
            text: String::from_str("What if I don't have a Dutch oven?"),
            time_ago: String::from_str("1 hour ago"),
            children: reply2,
        },
    );
    comments
}

fn mock_comments_chicken() -> (r: Vec<Comment>)
    ensures
        r@.len() == 1,
{
    let mut comments: Vec<Comment> = Vec::new();
    comments.push(
        Comment {
            id: String::from_str("c5"),
            author_handle: String::from_str("weeknightchef"),
            text: String::from_str("Made this last night - my family loved it!"),
            time_ago: String::from_str("3 hours ago"),
            children: Vec::new(),
        },
    );
    comments
}

/// The fields of a fetched recipe record, when its JSON value parses:
/// name, content, portions, time, and creation timestamp.
pub uninterp spec fn recipe_value_fields_of(value: Seq<char>) -> Option<
    (Seq<char>, Seq<char>, u64, u64, Seq<char>),
>;

/// A fetched recipe record's fields.
pub struct RecipeValue {
    pub name: String,
    pub content: String,
    pub portions: u64,
    pub time: u64,
    pub created_at: String,
}

/// Relies on serde_json: extracts `name`, `content`, the integral
/// `portions` and `time`, and `createdAt` from a recipe record's JSON
/// value; determined by the text alone.
#[verifier::external_body]
pub fn parse_recipe_value(value: &str) -> (r: Option<RecipeValue>)
    ensures
        r is Some <==> recipe_value_fields_of(value@) is Some,
        match r {
            Option::None => true,
            Option::Some(v) => recipe_value_fields_of(value@) matches Option::Some(f) && v.name@
                == f.0 && v.content@ == f.1 && v.portions == f.2 && v.time == f.3 && v.created_at@
                == f.4,
        },
{
    let v: serde_json::Value = serde_json::from_str(value).ok()?;
    Some(RecipeValue {
        name: v.get("name")?.as_str()?.to_string(),
        content: v.get("content")?.as_str()?.to_string(),
        portions: v.get("portions")?.as_u64()?,
        time: v.get("time")?.as_u64()?,
        created_at: v.get("createdAt")?.as_str()?.to_string(),
    })
}

/// Assembles a recipe page from a fetched record: the record key becomes
/// the id, the author's handle and the parsed fields carry over (counts
/// reduced to 32 bits), the age is rendered from `now`, and a fresh page
/// has no comments. `None` exactly when the value does not parse.
pub fn recipe_detail_from_record(rkey: &str, handle: &str, value: &str, now: i64) -> (r: Option<
    RecipeDetail,
>)
    ensures
        r is Some <==> recipe_value_fields_of(value@) is Some,
        match r {
            Option::None => true,
            Option::Some(d) => recipe_value_fields_of(value@) matches Option::Some(f) && {
                &&& d.id@ == rkey@
                &&& d.name@ == f.0
                &&& d.content@ == f.1
                &&& d.portions == f.2 % 0x100000000
                &&& d.time == f.3 % 0x100000000
                &&& d.author_handle@ == handle@
                &&& d.comments@.len() == 0
                &&& (rfc3339_seconds_of(f.4) is None ==> d.time_ago@ == "recently"@)
                &&& (rfc3339_seconds_of(f.4) matches Option::Some(t) ==> (t > now ==> d.time_ago@
                    == "just now"@))
                &&& (rfc3339_seconds_of(f.4) matches Option::Some(t) ==> (t <= now && now - t
                    <= i64::MAX ==> d.time_ago@ == spec_time_ago_label((now - t) as i64)))
            },
        },
{
    match parse_recipe_value(value) {
        Option::None => Option::None,
        Option::Some(v) => Option::Some(
            RecipeDetail {
                id: rkey.to_owned(),
                name: v.name,
                content: v.content,
                portions: (v.portions % 0x100000000) as u32,
                time: (v.time % 0x100000000) as u32,
                author_handle: handle.to_owned(),
                time_ago: time_ago(v.created_at.as_str(), now),
                comments: Vec::new(),
            },
        ),
    }
}

/// The fields of a profile record, when its JSON value parses: display
/// name, description, avatar and banner content hashes, and creation
/// timestamp, each optional.
pub uninterp spec fn profile_fields_of(value: Seq<char>) -> Option<
    (
        Option<Seq<char>>,
        Option<Seq<char>>,
        Option<Seq<char>>,
        Option<Seq<char>>,
        Option<Seq<char>>,
    ),
>;

/// Relies on serde_json: extracts `displayName`, `description`, the
/// `$link` hashes under `avatar.ref` and `banner.ref`, and `createdAt`,
/// each absent when missing; determined by the text alone.
#[verifier::external_body]
pub fn parse_profile_value(value: &str) -> (r: Option<ProfileRecord>)
    ensures
        r is Some <==> profile_fields_of(value@) is Some,
        match r {
            Option::None => true,
            Option::Some(p) => profile_fields_of(value@) matches Option::Some(f) && {
                &&& opt_view_eq(p.display_name, f.0)
                &&& opt_view_eq(p.description, f.1)
                &&& opt_view_eq(p.avatar_cid, f.2)
                &&& opt_view_eq(p.banner_cid, f.3)
                &&& opt_view_eq(p.created_at, f.4)
            },
        },
{
    let v: serde_json::Value = serde_json::from_str(value).ok()?;
    let text = |k: &str| v.get(k).and_then(|x| x.as_str()).map(|s| s.to_string());
    let link = |k: &str| {
        v.get(k).and_then(|b| b.get("ref")).and_then(|r| r.get("$link"))
            .and_then(|x| x.as_str()).map(|s| s.to_string())
    };
    Some(ProfileRecord { display_name: text("displayName"), description: text("description"),
        avatar_cid: link("avatar"), banner_cid: link("banner"), created_at: text("createdAt") })
}

/// Both absent, or both present with the same text.
pub open spec fn opt_view_eq(a: Option<String>, b: Option<Seq<char>>) -> bool {
    match (a, b) {
        (Option::None, Option::None) => true,
        (Option::Some(s), Option::Some(t)) => s@ == t,
        _ => false,
    }
}

/// The public URL of a stored blob, as used for avatars: the repository
/// endpoint's blob path with the owner and content hash as encoded query
/// parameters.
pub fn blob_fetch_url(pds_url: &str, did: &str, cid: &str) -> (r: String)
    ensures
        r@ == spec_trim_slashes(pds_url@) + "/xrpc/com.atproto.sync.getBlob?did="@
            + query_encoded_of(did@) + "&cid="@ + query_encoded_of(cid@),
{
    let mut out = trim_trailing_slashes(pds_url).to_owned();
    out.append("/xrpc/com.atproto.sync.getBlob?did=");
    out.append(query_encode(did).as_str());
    out.append("&cid=");
    out.append(query_encode(cid).as_str());
    out
}

/// The avatar URL a profile yields, present exactly when the profile
/// carries an avatar hash.
pub fn avatar_url_for(profile: &ProfileRecord, pds_url: &str, did: &str) -> (r: Option<String>)
    ensures
        r is Some <==> profile.avatar_cid is Some,
        match r {
            Option::None => true,
            Option::Some(url) => profile.avatar_cid matches Option::Some(cid) && url@
                == spec_trim_slashes(pds_url@) + "/xrpc/com.atproto.sync.getBlob?did="@
                + query_encoded_of(did@) + "&cid="@ + query_encoded_of(cid@),
        },
{
    match &profile.avatar_cid {
        Option::None => Option::None,
        Option::Some(cid) => Option::Some(blob_fetch_url(pds_url, did, cid.as_str())),
    }
}

/// Builds one listing entry from a listed record, as the profile page
/// shows it: the record key from the URI becomes the id, the parsed name
/// and age carry over, the author is the page's handle, and the comment
/// count starts at zero. `None` exactly when the value does not parse.
pub fn recipe_entry_from_listing(uri: &str, value: &str, handle: &str, now: i64) -> (r: Option<
    Recipe,
>)
    ensures
        r is Some <==> recipe_value_fields_of(value@) is Some,
        match r {
            Option::None => true,
            Option::Some(entry) => recipe_value_fields_of(value@) matches Option::Some(f) && {
                &&& entry.id@ == crate::repo::spec_last_segment(uri@)
                &&& entry.name@ == f.0
                &&& entry.author_handle@ == handle@
                &&& entry.comment_count == 0
                &&& (rfc3339_seconds_of(f.4) is None ==> entry.time_ago@ == "recently"@)
                &&& (rfc3339_seconds_of(f.4) matches Option::Some(t) ==> (t > now
                    ==> entry.time_ago@ == "just now"@))
                &&& (rfc3339_seconds_of(f.4) matches Option::Some(t) ==> (t <= now && now - t
                    <= i64::MAX ==> entry.time_ago@ == spec_time_ago_label((now - t) as i64)))
            },
        },
{
    match parse_recipe_value(value) {
        Option::None => Option::None,
        Option::Some(v) => Option::Some(
            Recipe {
                id: crate::repo::rkey_from_uri(uri),
                name: v.name,
                author_handle: handle.to_owned(),
                time_ago: time_ago(v.created_at.as_str(), now),
                comment_count: 0,
            },
        ),
    }
}

/// Reads a profile out of a fetched record value and derives its avatar
/// URL in one step, as the profile page does: present exactly when the
/// value parses, with the URL present exactly when an avatar is set.
pub fn profile_with_avatar(value: &str, pds_url: &str, did: &str) -> (r: Option<
    (ProfileRecord, Option<String>),
>)
    ensures
        r is Some <==> profile_fields_of(value@) is Some,
        match r {
            Option::None => true,
            Option::Some(p) => profile_fields_of(value@) matches Option::Some(f) && {
                &&& opt_view_eq(p.0.display_name, f.0)
                &&& opt_view_eq(p.0.description, f.1)
                &&& opt_view_eq(p.0.avatar_cid, f.2)
                &&& (p.1 is Some <==> p.0.avatar_cid is Some)
            },
        },
{
    match parse_profile_value(value) {
        Option::None => Option::None,
        Option::Some(profile) => {
            let url = avatar_url_for(&profile, pds_url, did);
            Option::Some((profile, url))
        },
    }
}

} // verus!
