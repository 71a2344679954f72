//! Market tags: which identifiers each venue uses for a topic, and the category
//! under which the topic is stored.
use crate::models::Platform;
use crate::text;
use vstd::prelude::*;

verus! {

/// A topic whose markets are collected.
#[derive(Debug, Clone, Copy, PartialEq, Eq, Hash, Structural)]
pub enum MarketTag {
    Soccer,
    Nba,
    Nfl,
    Politics,
}

/// The category pair stored with the markets of a topic.
#[derive(Debug, Clone, Copy)]
pub struct MarketTagInfo {
    pub market_category: &'static str,
    pub market_subcategory: &'static str,
}

/// The identifiers that `platform` uses for `tag`.
pub open spec fn tag_identifiers(tag: MarketTag, platform: Platform) -> Seq<&'static str> {
    match (tag, platform) {
        (MarketTag::Nba, Platform::Polymarket) => seq![
            "745",
            "100240",
            "100871",
            "102037",
            "101506",
            "102288",
            "100108",
            "100254",
            "101849",
            "100283",
            "102769",
        ],
        (MarketTag::Nba, Platform::Kalshi) => seq!["Basketball"],
        (MarketTag::Soccer, Platform::Polymarket) => seq!["306", "100350", "100834", "100300"],
        (MarketTag::Soccer, Platform::Kalshi) => seq!["Soccer"],
        (MarketTag::Nfl, Platform::Polymarket) => seq![
            "450",
            "101674",
            "100959",
            "1453",
            "100833",
            "102575",
            "102590",
            "636",
            "102160",
            "101594",
            "1186",
            "102934",
            "10",
            "101673",
        ],
        (MarketTag::Nfl, Platform::Kalshi) => seq!["Football"],
        (MarketTag::Politics, Platform::Polymarket) => seq![
            "2",
            "596",
            "176",
            "789",
            "902",
            "100199",
            "144",
            "101206",
            "102788",
            "1597",
            "102006",
            "1515",
            "264",
            "126",
            "103026",
            "102514",
            "102477",
            "230",
            "393",
            "100434",
            "1396",
            "778",
            "828",
            "915",
            "859",
            "1346",
            "101773",
            "101426",
            "80",
            "100783",
            "102810",
            "766",
            "514",
            "718",
            "1459",
            "1405",
            "1400",
            "247",
            "1337",
            "282",
            "396",
            "538",
            "791",
            "100343",
            "100381",
            "100387",
            "100388",
        ],
        (MarketTag::Politics, Platform::Kalshi) => seq![
            "Politics",
            "Elections",
            "Companies",
            "Mentions",
        ],
    }
}

/// Whether `platform` uses `text` as an identifier of `tag`.
pub open spec fn identifies(tag: MarketTag, platform: Platform, text: Seq<char>) -> bool {
    exists|i: int|
        0 <= i < tag_identifiers(tag, platform).len() && (#[trigger] tag_identifiers(
            tag,
            platform,
        )[i])@ == text
}

/// The topic that `text` identifies on `platform`; the last one declared where
/// there are several.
pub open spec fn tag_of(platform: Platform, text: Seq<char>) -> Option<MarketTag> {
    if identifies(MarketTag::Politics, platform, text) {
        Some(MarketTag::Politics)
    } else if identifies(MarketTag::Nfl, platform, text) {
        Some(MarketTag::Nfl)
    } else if identifies(MarketTag::Nba, platform, text) {
        Some(MarketTag::Nba)
    } else if identifies(MarketTag::Soccer, platform, text) {
        Some(MarketTag::Soccer)
    } else {
        None
    }
}

/// The category pair of a topic.
pub open spec fn tag_info(tag: MarketTag) -> (Seq<char>, Seq<char>) {
    match tag {
        MarketTag::Soccer => ("sport"@, "Socer"@),
        MarketTag::Nba => ("sport"@, "NBA"@),
        MarketTag::Nfl => ("sport"@, "NFL"@),
        MarketTag::Politics => ("politics"@, "Politics"@),
    }
}

impl MarketTag {
    /// The identifiers that `platform` uses for this topic.
    pub fn identifiers(&self, platform: Platform) -> (r: &'static [&'static str])
        ensures
            r@ == tag_identifiers(*self, platform),
    {
        match (self, platform) {
            (MarketTag::Nba, Platform::Polymarket) => &[
                "745", "100240", "100871", "102037", "101506", "102288", "100108", "100254",
                "101849", "100283", "102769",
            ],
            (MarketTag::Nba, Platform::Kalshi) => &["Basketball"],
            (MarketTag::Soccer, Platform::Polymarket) => &["306", "100350", "100834", "100300"],
            (MarketTag::Soccer, Platform::Kalshi) => &["Soccer"],
            (MarketTag::Nfl, Platform::Polymarket) => &[
                "450", "101674", "100959", "1453", "100833", "102575", "102590", "636", "102160",
                "101594", "1186", "102934", "10", "101673",
            ],
            (MarketTag::Nfl, Platform::Kalshi) => &["Football"],
            (MarketTag::Politics, Platform::Polymarket) => &[
                "2", "596", "176", "789", "902", "100199", "144", "101206", "102788", "1597",
                "102006", "1515", "264", "126", "103026", "102514", "102477", "230", "393",
                "100434", "1396", "778", "828", "915", "859", "1346", "101773", "101426", "80",
                "100783", "102810", "766", "514", "718", "1459", "1405", "1400", "247", "1337",
                "282", "396", "538", "791", "100343", "100381", "100387", "100388",
            ],
            (MarketTag::Politics, Platform::Kalshi) => &[
                "Politics", "Elections", "Companies", "Mentions",
            ],
        }
    }

    /// The category pair of this topic.
    pub fn info(&self) -> (r: MarketTagInfo)
        ensures
            (r.market_category@, r.market_subcategory@) == tag_info(*self),
    {
        match self {
            MarketTag::Soccer => MarketTagInfo {
                market_category: "sport",
                market_subcategory: "Socer",
            },
            MarketTag::Nba => MarketTagInfo { market_category: "sport", market_subcategory: "NBA" },
            MarketTag::Nfl => MarketTagInfo { market_category: "sport", market_subcategory: "NFL" },
            MarketTag::Politics => MarketTagInfo {
                market_category: "politics",
                market_subcategory: "Politics",
            },
        }
    }

    /// The topic that `text` identifies on `platform`.
    pub fn lookup(platform: Platform, text: &str) -> (r: Option<MarketTag>)
        ensures
            r == tag_of(platform, text@),
    {
        if text::is_one_of(text, MarketTag::Politics.identifiers(platform)) {
            Some(MarketTag::Politics)
        } else if text::is_one_of(text, MarketTag::Nfl.identifiers(platform)) {
            Some(MarketTag::Nfl)
        } else if text::is_one_of(text, MarketTag::Nba.identifiers(platform)) {
            Some(MarketTag::Nba)
        } else if text::is_one_of(text, MarketTag::Soccer.identifiers(platform)) {
            Some(MarketTag::Soccer)
        } else {
            None
        }
    }

    /// Every topic, in the order of declaration.
    pub fn all() -> (r: [MarketTag; 4])
        ensures
            r@ == seq![MarketTag::Soccer, MarketTag::Nba, MarketTag::Nfl, MarketTag::Politics],
    {
        [MarketTag::Soccer, MarketTag::Nba, MarketTag::Nfl, MarketTag::Politics]
    }
}

impl MarketTagInfo {
    /// The two category names joined by an underscore.
    pub fn label(&self) -> (r: String)
        ensures
            r@ == self.market_category@ + "_"@ + self.market_subcategory@,
    {
        text::concat3(self.market_category, "_", self.market_subcategory)
    }
}

/// Whether two texts differ in length or in one of their first six characters.
spec fn differ_early(a: Seq<char>, b: Seq<char>) -> bool {
    ||| a.len() != b.len()
    ||| a.len() > 0 && a[0] != b[0]
    ||| a.len() > 1 && a[1] != b[1]
    ||| a.len() > 2 && a[2] != b[2]
    ||| a.len() > 3 && a[3] != b[3]
    ||| a.len() > 4 && a[4] != b[4]
    ||| a.len() > 5 && a[5] != b[5]
}

#[verifier::rlimit(40)]
proof fn lemma_identifiers_differ(a: MarketTag, i: int, b: MarketTag, j: int, platform: Platform)
    requires
        0 <= i < tag_identifiers(a, platform).len(),
        0 <= j < tag_identifiers(b, platform).len(),
        a != b || i != j,
    ensures
        tag_identifiers(a, platform)[i]@ != tag_identifiers(b, platform)[j]@,
{
    reveal_strlit("745");
    reveal_strlit("100240");
    reveal_strlit("100871");
    reveal_strlit("102037");
    reveal_strlit("101506");
    reveal_strlit("102288");
    reveal_strlit("100108");
    reveal_strlit("100254");
    reveal_strlit("101849");
    reveal_strlit("100283");
    reveal_strlit("102769");
    reveal_strlit("Basketball");
    reveal_strlit("306");
    reveal_strlit("100350");
    reveal_strlit("100834");
    reveal_strlit("100300");
    reveal_strlit("Soccer");
    reveal_strlit("450");
    reveal_strlit("101674");
    reveal_strlit("100959");
    reveal_strlit("1453");
    reveal_strlit("100833");
    reveal_strlit("102575");
    reveal_strlit("102590");
    reveal_strlit("636");
    reveal_strlit("102160");
    reveal_strlit("101594");
    reveal_strlit("1186");
    reveal_strlit("102934");
    reveal_strlit("10");
    reveal_strlit("101673");
    reveal_strlit("Football");
    reveal_strlit("2");
    reveal_strlit("596");
    reveal_strlit("176");
    reveal_strlit("789");
    reveal_strlit("902");
    reveal_strlit("100199");
    reveal_strlit("144");
    reveal_strlit("101206");
    reveal_strlit("102788");
    reveal_strlit("1597");
    reveal_strlit("102006");
    reveal_strlit("1515");
    reveal_strlit("264");
    reveal_strlit("126");
    reveal_strlit("103026");
    reveal_strlit("102514");
    reveal_strlit("102477");
    reveal_strlit("230");
    reveal_strlit("393");
    reveal_strlit("100434");
    reveal_strlit("1396");
    reveal_strlit("778");
    reveal_strlit("828");
    reveal_strlit("915");
    reveal_strlit("859");
    reveal_strlit("1346");
    reveal_strlit("101773");
    reveal_strlit("101426");
    reveal_strlit("80");
    reveal_strlit("100783");
    reveal_strlit("102810");
    reveal_strlit("766");
    reveal_strlit("514");
    reveal_strlit("718");
    reveal_strlit("1459");
    reveal_strlit("1405");
    reveal_strlit("1400");
    reveal_strlit("247");
    reveal_strlit("1337");
    reveal_strlit("282");
    reveal_strlit("396");
    reveal_strlit("538");
    reveal_strlit("791");
    reveal_strlit("100343");
    reveal_strlit("100381");
    reveal_strlit("100387");
    reveal_strlit("100388");
    reveal_strlit("Politics");
    reveal_strlit("Elections");
    reveal_strlit("Companies");
    reveal_strlit("Mentions");
    assert(differ_early(tag_identifiers(a, platform)[i]@, tag_identifiers(b, platform)[j]@));
}

/// Every identifier of a topic leads back to that topic.
pub proof fn identifiers_lead_back(tag: MarketTag, platform: Platform, i: int)
    requires
        0 <= i < tag_identifiers(tag, platform).len(),
    ensures
        tag_of(platform, tag_identifiers(tag, platform)[i]@) == Some(tag),
{
    let text = tag_identifiers(tag, platform)[i]@;
    assert(identifies(tag, platform, text));
    assert forall|other: MarketTag, j: int|
        other != tag && 0 <= j < tag_identifiers(other, platform).len() implies (
    #[trigger] tag_identifiers(other, platform)[j])@ != text by {
        lemma_identifiers_differ(tag, i, other, j, platform);
    }
}

/// Different topics are filed under different category pairs, sports apart from
/// politics.
pub proof fn topics_are_filed_apart(a: MarketTag, b: MarketTag)
    ensures
        tag_info(a) == tag_info(b) <==> a == b,
        tag_info(a).1 == tag_info(b).1 <==> a == b,
        tag_info(a).0 == "politics"@ <==> a is Politics,
        tag_info(a).0 == "sport"@ <==> !(a is Politics),
{
    reveal_strlit("sport");
    reveal_strlit("politics");
    reveal_strlit("Socer");
    reveal_strlit("NBA");
    reveal_strlit("NFL");
    reveal_strlit("Politics");
    assert("sport"@.len() == 5 && "politics"@.len() == 8);
    assert("Socer"@.len() == 5 && "Politics"@.len() == 8);
    assert("NBA"@.len() == 3 && "NBA"@[1] == 'B');
    assert("NFL"@.len() == 3 && "NFL"@[1] == 'F');
}

/// No identifier occurs twice among those that a venue uses for a topic.
pub proof fn identifiers_are_distinct(tag: MarketTag, platform: Platform)
    ensures
        forall|i: int, j: int|
            0 <= i < tag_identifiers(tag, platform).len() && 0 <= j < tag_identifiers(
                tag,
                platform,
            ).len() && i != j ==> (#[trigger] tag_identifiers(tag, platform)[i])@ != (
            #[trigger] tag_identifiers(tag, platform)[j])@,
{
    assert forall|i: int, j: int|
        0 <= i < tag_identifiers(tag, platform).len() && 0 <= j < tag_identifiers(
            tag,
            platform,
        ).len() && i != j implies (#[trigger] tag_identifiers(tag, platform)[i])@ != (
    #[trigger] tag_identifiers(tag, platform)[j])@ by {
        lemma_identifiers_differ(tag, i, tag, j, platform);
    }
}

} // verus!
