//! From a venue's own description of a market to the stored, embeddable form.
use crate::clock;
use crate::ids;
use crate::models::{platform_name, MarketInfo, Platform, PlatformCode};
use crate::text;
use vstd::prelude::*;

verus! {

/// A market as Polymarket describes it.
#[derive(Debug)]
pub struct GammaMarket {
    pub condition_id: Option<String>,
    pub slug: Option<String>,
    pub question: Option<String>,
    pub outcomes: Option<String>,
    pub description: Option<String>,
    pub end_date_iso: Option<String>,
    pub end_date: Option<String>,
    pub clob_token_ids: Option<String>,
}

/// A market as Kalshi describes it.
#[derive(Debug)]
pub struct KalshiMarket {
    pub ticker: String,
    pub title: String,
    pub subtitle: String,
    pub yes_sub_title: String,
    pub no_sub_title: String,
    pub rules_primary: String,
    pub rules_secondary: String,
    pub close_time: String,
    pub expiration_time: Option<String>,
}

/// A market with the time at which it was stored.
#[derive(Debug)]
pub struct QdrantPayload {
    pub market_info: Option<MarketInfo>,
    pub qdrant_inserted_at: i64,
}

impl Clone for QdrantPayload {
    fn clone(&self) -> (r: Self)
        ensures
            r == *self,
    {
        QdrantPayload {
            market_info: match &self.market_info {
                Some(info) => Some(info.clone()),
                None => None,
            },
            qdrant_inserted_at: self.qdrant_inserted_at,
        }
    }
}

/// The text, empty where there is none.
pub open spec fn or_empty(text: Option<String>) -> Seq<char> {
    match text {
        Some(s) => s@,
        None => Seq::empty(),
    }
}

/// `question` with a full stop behind it, unless it ends as a sentence.
pub open spec fn sentence(question: Seq<char>) -> Seq<char> {
    if text::ends_in(question, '?') || text::ends_in(question, '.') {
        question
    } else {
        question.push('.')
    }
}

/// The time text of a Polymarket market.
pub open spec fn gamma_time(market: GammaMarket) -> Seq<char> {
    match market.end_date_iso {
        Some(s) => s@,
        None => or_empty(market.end_date),
    }
}

/// The question of a Kalshi market: its title, then its subtitle if it has one.
pub open spec fn kalshi_question(title: Seq<char>, subtitle: Seq<char>) -> Seq<char> {
    if text::blank(subtitle) {
        text::trimmed(title)
    } else {
        text::trimmed(title) + " "@ + text::trimmed(subtitle)
    }
}

/// The outcomes of a Kalshi market.
pub open spec fn kalshi_outcome(yes: Seq<char>, no: Seq<char>) -> Seq<char> {
    "[Yes("@ + text::trimmed(yes) + "), No(Not "@ + text::trimmed(no) + ")]"@
}

/// The rules of a Kalshi market: the primary ones as a sentence, then the
/// secondary ones if there are any.
pub open spec fn kalshi_rules(primary: Seq<char>, secondary: Seq<char>) -> Seq<char> {
    if secondary.len() == 0 {
        primary
    } else if text::ends_in(primary, '.') {
        primary + " "@ + secondary
    } else {
        primary + ". "@ + secondary
    }
}

/// The time text of a Kalshi market.
pub open spec fn kalshi_time(market: KalshiMarket) -> Seq<char> {
    if market.close_time@.len() > 0 {
        market.close_time@
    } else {
        or_empty(market.expiration_time)
    }
}

/// The identifier of a market: derived from its venue and its id there.
pub open spec fn market_uuid(platform: Platform, id: Seq<char>) -> Seq<char> {
    ids::uuid_v5(platform_name(platform) + ":"@ + id)
}

/// Whether `info` describes the Polymarket market, filed under the categories.
pub open spec fn describes_gamma(
    info: MarketInfo,
    market: GammaMarket,
    category: Seq<char>,
    subcategory: Seq<char>,
) -> bool {
    &&& info.uuid@ == market_uuid(Platform::Polymarket, or_empty(market.slug))
    &&& ids::is_uuid(info.uuid@)
    &&& info.question@ == sentence(or_empty(market.question))
    &&& info.outcome@ == or_empty(market.outcomes).filter(|c: char| c != '\\')
    &&& info.rules@ == or_empty(market.description)
    &&& info.market_id@ == or_empty(market.slug)
    &&& info.market_category@ == category
    &&& info.market_subcategory@ == subcategory
    &&& info.platform == PlatformCode::Known(Platform::Polymarket)
    &&& info.close_time_ms == clock::ts_millis(gamma_time(market))
}

/// Whether `info` describes the Kalshi market, filed under the categories.
pub open spec fn describes_kalshi(
    info: MarketInfo,
    market: KalshiMarket,
    category: Seq<char>,
    subcategory: Seq<char>,
) -> bool {
    &&& info.uuid@ == market_uuid(Platform::Kalshi, market.ticker@)
    &&& ids::is_uuid(info.uuid@)
    &&& info.question@ == sentence(kalshi_question(market.title@, market.subtitle@))
    &&& info.outcome@ == kalshi_outcome(market.yes_sub_title@, market.no_sub_title@)
    &&& info.rules@ == kalshi_rules(market.rules_primary@, market.rules_secondary@)
    &&& info.market_id@ == market.ticker@
    &&& info.market_category@ == category
    &&& info.market_subcategory@ == subcategory
    &&& info.platform == PlatformCode::Known(Platform::Kalshi)
    &&& info.close_time_ms == clock::ts_millis(kalshi_time(market))
}

fn or_empty_str(text: &Option<String>) -> (r: &str)
    ensures
        r@ == or_empty(*text),
{
    match text {
        Some(s) => s.as_str(),
        None => {
            proof {
                reveal_strlit("");
                assert(""@ =~= Seq::empty());
            }
            ""
        },
    }
}

/// Ends a question as a sentence: one that ends in neither a question mark nor
/// a full stop gets a full stop.
pub fn as_sentence(question: String) -> (r: String)
    ensures
        r@ == sentence(question@),
{
    if text::ends_with(question.as_str(), '?') || text::ends_with(question.as_str(), '.') {
        return question;
    }
    let mut question = question;
    question.push('.');
    question
}

impl MarketInfo {
    /// Describes a Polymarket market, without categories.
    pub fn from_gamma(market: &GammaMarket) -> (r: MarketInfo)
        ensures
            describes_gamma(r, *market, Seq::empty(), Seq::empty()),
    {
        let slug = or_empty_str(&market.slug);
        let time = match &market.end_date_iso {
            Some(s) => s.as_str(),
            None => or_empty_str(&market.end_date),
        };
        MarketInfo {
            uuid: ids::joined_id(Platform::Polymarket.name(), slug),
            question: as_sentence(or_empty_str(&market.question).to_owned()),
            outcome: text::without_char(or_empty_str(&market.outcomes), '\\'),
            rules: or_empty_str(&market.description).to_owned(),
            market_id: slug.to_owned(),
            market_category: String::new(),
            market_subcategory: String::new(),
            platform: PlatformCode::Known(Platform::Polymarket),
            close_time_ms: clock::parse_ts_to_millis(time),
        }
    }

    /// Describes a Kalshi market, without categories.
    pub fn from_kalshi(market: &KalshiMarket) -> (r: MarketInfo)
        ensures
            describes_kalshi(r, *market, Seq::empty(), Seq::empty()),
    {
        let title = text::trim(market.title.as_str());
        let question = if text::is_blank(market.subtitle.as_str()) {
            title.to_owned()
        } else {
            text::concat3(title, " ", text::trim(market.subtitle.as_str()))
        };
        let mut outcome = "[Yes(".to_owned();
        outcome.append(text::trim(market.yes_sub_title.as_str()));
        outcome.append("), No(Not ");
        outcome.append(text::trim(market.no_sub_title.as_str()));
        outcome.append(")]");
        let primary = market.rules_primary.as_str();
        let secondary = market.rules_secondary.as_str();
        let rules = if secondary.is_empty() {
            primary.to_owned()
        } else if text::ends_with(primary, '.') {
            text::concat3(primary, " ", secondary)
        } else {
            text::concat3(primary, ". ", secondary)
        };
        let time = if !market.close_time.as_str().is_empty() {
            market.close_time.as_str()
        } else {
            or_empty_str(&market.expiration_time)
        };
        MarketInfo {
            uuid: ids::joined_id(Platform::Kalshi.name(), market.ticker.as_str()),
            question: as_sentence(question),
            outcome,
            rules,
            market_id: market.ticker.clone(),
            market_category: String::new(),
            market_subcategory: String::new(),
            platform: PlatformCode::Known(Platform::Kalshi),
            close_time_ms: clock::parse_ts_to_millis(time),
        }
    }
}

/// Turns a venue's market into the stored form, filed under two categories and
/// stamped with the time of storing.
pub trait QdrantMarketConverter<T> {
    /// Whether `payload` is the stored form of `value`.
    spec fn converts(
        payload: QdrantPayload,
        value: T,
        category: Seq<char>,
        subcategory: Seq<char>,
        now_ms: i64,
    ) -> bool;

    /// The stored form of one market.
    fn from_market(value: &T, category: &str, subcategory: &str, now_ms: i64) -> (r: QdrantPayload)
        ensures
            Self::converts(r, *value, category@, subcategory@, now_ms),
    ;

    /// The stored form of several markets, in their order.
    fn from_markets(values: &Vec<T>, category: &str, subcategory: &str, now_ms: i64) -> (r: Vec<
        QdrantPayload,
    >)
        ensures
            r@.len() == values@.len(),
            forall|i: int|
                0 <= i < values@.len() ==> Self::converts(
                    #[trigger] r@[i],
                    values@[i],
                    category@,
                    subcategory@,
                    now_ms,
                ),
    ;
}

impl QdrantMarketConverter<GammaMarket> for QdrantPayload {
    open spec fn converts(
        payload: QdrantPayload,
        value: GammaMarket,
        category: Seq<char>,
        subcategory: Seq<char>,
        now_ms: i64,
    ) -> bool {
        &&& payload.qdrant_inserted_at == now_ms
        &&& payload.market_info matches Some(info)
        &&& describes_gamma(info, value, category, subcategory)
    }

    fn from_market(
        value: &GammaMarket,
        category: &str,
        subcategory: &str,
        now_ms: i64,
    ) -> QdrantPayload {
        let mut info = MarketInfo::from_gamma(value);
        info.market_category = category.to_owned();
        info.market_subcategory = subcategory.to_owned();
        QdrantPayload { market_info: Some(info), qdrant_inserted_at: now_ms }
    }

    fn from_markets(
        values: &Vec<GammaMarket>,
        category: &str,
        subcategory: &str,
        now_ms: i64,
    ) -> Vec<QdrantPayload> {
        let mut out: Vec<QdrantPayload> = Vec::new();
        for i in 0..values.len()
            invariant
                out@.len() == i,
                forall|j: int|
                    0 <= j < i ==> Self::converts(
                        #[trigger] out@[j],
                        values@[j],
                        category@,
                        subcategory@,
                        now_ms,
                    ),
        {
            out.push(Self::from_market(&values[i], category, subcategory, now_ms));
        }
        out
    }
}

impl QdrantMarketConverter<KalshiMarket> for QdrantPayload {
    open spec fn converts(
        payload: QdrantPayload,
        value: KalshiMarket,
        category: Seq<char>,
        subcategory: Seq<char>,
        now_ms: i64,
    ) -> bool {
        &&& payload.qdrant_inserted_at == now_ms
        &&& payload.market_info matches Some(info)
        &&& describes_kalshi(info, value, category, subcategory)
    }

    fn from_market(
        value: &KalshiMarket,
        category: &str,
        subcategory: &str,
        now_ms: i64,
    ) -> QdrantPayload {
        let mut info = MarketInfo::from_kalshi(value);
        info.market_category = category.to_owned();
        info.market_subcategory = subcategory.to_owned();
        QdrantPayload { market_info: Some(info), qdrant_inserted_at: now_ms }
    }

    fn from_markets(
        values: &Vec<KalshiMarket>,
        category: &str,
        subcategory: &str,
        now_ms: i64,
    ) -> Vec<QdrantPayload> {
        let mut out: Vec<QdrantPayload> = Vec::new();
        for i in 0..values.len()
            invariant
                out@.len() == i,
                forall|j: int|
                    0 <= j < i ==> Self::converts(
                        #[trigger] out@[j],
                        values@[j],
                        category@,
                        subcategory@,
                        now_ms,
                    ),
        {
            out.push(Self::from_market(&values[i], category, subcategory, now_ms));
        }
        out
    }
}

/// Why a market cannot be stored.
#[derive(Debug, Clone, Copy, PartialEq, Eq, Structural)]
pub enum PointError {
    MissingMarketInfo,
    InvalidUuid,
    EmptyMarketId,
    EmptyQuestion,
    EmptyOutcome,
    EmptyRules,
    EmptyCategory,
    EmptySubcategory,
    UnknownPlatform,
    ZeroCloseTime,
}

/// The first thing that keeps a market from being stored, if anything does.
/// `uuid_ok` says whether its identifier is a UUID.
pub open spec fn info_error(info: MarketInfo, uuid_ok: bool) -> Option<PointError> {
    if !uuid_ok {
        Some(PointError::InvalidUuid)
    } else if text::blank(info.market_id@) {
        Some(PointError::EmptyMarketId)
    } else if text::blank(info.question@) {
        Some(PointError::EmptyQuestion)
    } else if text::blank(info.outcome@) {
        Some(PointError::EmptyOutcome)
    } else if text::blank(info.rules@) {
        Some(PointError::EmptyRules)
    } else if text::blank(info.market_category@) {
        Some(PointError::EmptyCategory)
    } else if text::blank(info.market_subcategory@) {
        Some(PointError::EmptySubcategory)
    } else if info.platform is Unknown {
        Some(PointError::UnknownPlatform)
    } else if info.close_time_ms == 0 {
        Some(PointError::ZeroCloseTime)
    } else {
        None
    }
}

/// The first thing that keeps a payload from being stored, if anything does.
pub open spec fn payload_error(payload: QdrantPayload) -> Option<PointError> {
    match payload.market_info {
        None => Some(PointError::MissingMarketInfo),
        Some(info) => info_error(info, ids::is_uuid(info.uuid@)),
    }
}

/// The text that is embedded for a market.
pub open spec fn question_vector(info: MarketInfo) -> Seq<char> {
    "Question: "@ + info.question@ + " Possible outcomes: "@ + info.outcome@
}

proof fn lemma_sentence_not_blank(question: Seq<char>)
    ensures
        !text::blank(sentence(question)),
{
    let s = sentence(question);
    let last = s[s.len() - 1];
    assert(last == '?' || last == '.');
    assert(!text::white_space(last));
}

/// A question is kept as it is but for at most one full stop behind it, ends in a
/// question mark or a full stop, and a question that does so already stays as it is.
pub proof fn questions_end_as_sentences(question: Seq<char>)
    ensures
        question.is_prefix_of(sentence(question)),
        sentence(question).len() <= question.len() + 1,
        sentence(question).len() > 0,
        sentence(question).last() == '?' || sentence(question).last() == '.',
        question.len() > 0 && (question.last() == '?' || question.last() == '.') ==> sentence(
            question,
        ) == question,
        sentence(sentence(question)) == sentence(question),
{
}

/// A stored Kalshi market is filed under its ticker and the given categories, on its
/// venue, and asks what its title and, where there is one, its subtitle say.
pub proof fn kalshi_markets_keep_what_they_say(
    info: MarketInfo,
    market: KalshiMarket,
    category: Seq<char>,
    subcategory: Seq<char>,
)
    requires
        describes_kalshi(info, market, category, subcategory),
    ensures
        info.market_id@ == market.ticker@,
        info.market_category@ == category,
        info.market_subcategory@ == subcategory,
        info.platform == PlatformCode::Known(Platform::Kalshi),
        info.uuid@ == ids::uuid_v5("KALSHI:"@ + market.ticker@),
        text::trimmed(market.title@).is_prefix_of(info.question@),
        !text::blank(market.subtitle@) ==> (text::trimmed(market.title@) + " "@ + text::trimmed(
            market.subtitle@,
        )).is_prefix_of(info.question@),
        text::blank(market.subtitle@) ==> info.question@.len() <= text::trimmed(
            market.title@,
        ).len() + 1,
        info.outcome@ == "[Yes("@ + text::trimmed(market.yes_sub_title@) + "), No(Not "@
            + text::trimmed(market.no_sub_title@) + ")]"@,
        market.rules_primary@.is_prefix_of(info.rules@),
        market.rules_secondary@.is_suffix_of(info.rules@),
        market.rules_secondary@.len() == 0 ==> info.rules@ == market.rules_primary@,
        market.close_time@.len() > 0 ==> info.close_time_ms == clock::ts_millis(
            market.close_time@,
        ),
        market.close_time@.len() == 0 ==> (market.expiration_time matches Some(t)
            ==> info.close_time_ms == clock::ts_millis(t@)),
{
    crate::models::market_keys_name_the_venue(market.ticker@);
    questions_end_as_sentences(kalshi_question(market.title@, market.subtitle@));
    let (title, subtitle) = (text::trimmed(market.title@), text::trimmed(market.subtitle@));
    let full = title + " "@ + subtitle;
    assert(title.is_prefix_of(full)) by {
        assert(full.subrange(0, title.len() as int) =~= title);
    }
    let question = kalshi_question(market.title@, market.subtitle@);
    assert(title.is_prefix_of(info.question@)) by {
        assert(info.question@.subrange(0, title.len() as int) =~= question.subrange(
            0,
            title.len() as int,
        ));
        assert(question.subrange(0, title.len() as int) =~= title);
    }
    let (primary, secondary) = (market.rules_primary@, market.rules_secondary@);
    assert(info.rules@.subrange(0, primary.len() as int) =~= primary);
    assert(info.rules@.subrange(
        info.rules@.len() - secondary.len(),
        info.rules@.len() as int,
    ) =~= secondary);
}

/// A stored Polymarket market is filed under its slug and the given categories, on its
/// venue, asks its question, and keeps its outcomes but for backslashes.
pub proof fn gamma_markets_keep_what_they_say(
    info: MarketInfo,
    market: GammaMarket,
    category: Seq<char>,
    subcategory: Seq<char>,
)
    requires
        describes_gamma(info, market, category, subcategory),
    ensures
        market.slug matches Some(slug) ==> info.market_id@ == slug@ && info.uuid@ == ids::uuid_v5(
            "POLYMARKET:"@ + slug@,
        ),
        info.market_category@ == category,
        info.market_subcategory@ == subcategory,
        info.platform == PlatformCode::Known(Platform::Polymarket),
        market.question matches Some(q) ==> q@.is_prefix_of(info.question@)
            && info.question@.len() <= q@.len() + 1,
        market.outcomes matches Some(o) ==> info.outcome@ == o@.filter(|c: char| c != '\\'),
        market.description matches Some(d) ==> info.rules@ == d@,
        market.end_date_iso matches Some(t) ==> info.close_time_ms == clock::ts_millis(t@),
        market.end_date_iso is None ==> (market.end_date matches Some(t) ==> info.close_time_ms
            == clock::ts_millis(t@)),
{
    crate::models::market_keys_name_the_venue(or_empty(market.slug));
    questions_end_as_sentences(or_empty(market.question));
}

/// A market can be stored exactly where it is there, its identifier is a UUID, nothing
/// that is said of it is blank, its venue is known and it has a closing time.
pub proof fn storable_markets_are_complete(payload: QdrantPayload)
    ensures
        payload_error(payload) is None <==> {
            &&& payload.market_info matches Some(info)
            &&& ids::is_uuid(info.uuid@)
            &&& !text::blank(info.market_id@)
            &&& !text::blank(info.question@)
            &&& !text::blank(info.outcome@)
            &&& !text::blank(info.rules@)
            &&& !text::blank(info.market_category@)
            &&& !text::blank(info.market_subcategory@)
            &&& info.platform is Known
            &&& info.close_time_ms != 0
        },
{
}

/// What is embedded for a market is its question and then its outcomes: markets that
/// agree in both are embedded alike.
pub proof fn questions_and_outcomes_are_embedded(info: MarketInfo, other: MarketInfo)
    ensures
        ("Question: "@ + info.question@).is_prefix_of(question_vector(info)),
        (" Possible outcomes: "@ + info.outcome@).is_suffix_of(question_vector(info)),
        question_vector(info).len() == "Question: "@.len() + info.question@.len()
            + " Possible outcomes: "@.len() + info.outcome@.len(),
        info.question@ == other.question@ && info.outcome@ == other.outcome@ ==> question_vector(
            info,
        ) == question_vector(other),
{
    let q = question_vector(info);
    let front = "Question: "@ + info.question@;
    let back = " Possible outcomes: "@ + info.outcome@;
    assert(q =~= front + back);
    assert(q.subrange(0, front.len() as int) =~= front);
    assert(q.subrange(q.len() - back.len(), q.len() as int) =~= back);
}

/// A Kalshi market that has a ticker, rules and a readable closing time can be
/// stored once it is converted, whatever else it says.
pub proof fn kalshi_markets_can_be_stored(
    payload: QdrantPayload,
    market: KalshiMarket,
    category: Seq<char>,
    subcategory: Seq<char>,
    now_ms: i64,
)
    requires
        <QdrantPayload as QdrantMarketConverter<KalshiMarket>>::converts(
            payload,
            market,
            category,
            subcategory,
            now_ms,
        ),
        !text::blank(market.ticker@),
        !text::blank(kalshi_rules(market.rules_primary@, market.rules_secondary@)),
        !text::blank(category),
        !text::blank(subcategory),
        clock::ts_millis(kalshi_time(market)) != 0,
    ensures
        payload_error(payload) is None,
{
    lemma_sentence_not_blank(kalshi_question(market.title@, market.subtitle@));
    let outcome = kalshi_outcome(market.yes_sub_title@, market.no_sub_title@);
    reveal_strlit("[Yes(");
    assert(outcome[0] == '[');
    assert(!text::white_space(outcome[0]));
}

/// A Polymarket market that has a slug, outcomes, a description and a readable
/// closing time can be stored once it is converted, whatever else it says.
pub proof fn gamma_markets_can_be_stored(
    payload: QdrantPayload,
    market: GammaMarket,
    category: Seq<char>,
    subcategory: Seq<char>,
    now_ms: i64,
)
    requires
        <QdrantPayload as QdrantMarketConverter<GammaMarket>>::converts(
            payload,
            market,
            category,
            subcategory,
            now_ms,
        ),
        !text::blank(or_empty(market.slug)),
        !text::blank(or_empty(market.outcomes).filter(|c: char| c != '\\')),
        !text::blank(or_empty(market.description)),
        !text::blank(category),
        !text::blank(subcategory),
        clock::ts_millis(gamma_time(market)) != 0,
    ensures
        payload_error(payload) is None,
{
    lemma_sentence_not_blank(or_empty(market.question));
}

/// Checks a market for storing, given whether its identifier is a UUID.
pub fn validate(info: &MarketInfo, uuid_ok: bool) -> (r: Result<(), PointError>)
    ensures
        r is Ok <==> info_error(*info, uuid_ok) is None,
        r matches Err(e) ==> info_error(*info, uuid_ok) == Some(e),
{
    if !uuid_ok {
        return Err(PointError::InvalidUuid);
    }
    if text::is_blank(info.market_id.as_str()) {
        return Err(PointError::EmptyMarketId);
    }
    if text::is_blank(info.question.as_str()) {
        return Err(PointError::EmptyQuestion);
    }
    if text::is_blank(info.outcome.as_str()) {
        return Err(PointError::EmptyOutcome);
    }
    if text::is_blank(info.rules.as_str()) {
        return Err(PointError::EmptyRules);
    }
    if text::is_blank(info.market_category.as_str()) {
        return Err(PointError::EmptyCategory);
    }
    if text::is_blank(info.market_subcategory.as_str()) {
        return Err(PointError::EmptySubcategory);
    }
    match info.platform {
        PlatformCode::Known(_) => {},
        PlatformCode::Unknown(_) => return Err(PointError::UnknownPlatform),
    }
    if info.close_time_ms == 0 {
        return Err(PointError::ZeroCloseTime);
    }
    Ok(())
}

/// A market that is fit to be stored, with its identifier and the text to embed.
#[derive(Debug)]
pub struct QdrantPointData {
    id: String,
    question_vector: String,
    payload: QdrantPayload,
}

impl QdrantPointData {
    /// The payload that the point carries.
    pub closed spec fn stored(&self) -> QdrantPayload {
        self.payload
    }

    /// A point carries a valid market, under its UUID and with its text.
    #[verifier::type_invariant]
    spec fn coherent(self) -> bool {
        &&& payload_error(self.payload) is None
        &&& self.id@ == self.payload.market_info->0.uuid@
        &&& self.question_vector@ == question_vector(self.payload.market_info->0)
    }

    /// The point for a payload, if its market is valid.
    pub fn new(payload: QdrantPayload) -> (r: Result<Self, PointError>)
        ensures
            r matches Ok(point) ==> payload_error(payload) is None && point.stored() == payload,
            r matches Err(e) ==> payload_error(payload) == Some(e),
    {
        let (id, question_vector) = match &payload.market_info {
            None => return Err(PointError::MissingMarketInfo),
            Some(info) => {
                let uuid_ok = ids::try_parse(info.uuid.as_str());
                match validate(info, uuid_ok) {
                    Err(e) => return Err(e),
                    Ok(()) => {},
                }
                let mut text = "Question: ".to_owned();
                text.append(info.question.as_str());
                text.append(" Possible outcomes: ");
                text.append(info.outcome.as_str());
                (info.uuid.clone(), text)
            },
        };
        Ok(QdrantPointData { id, question_vector, payload })
    }

    /// The points for those payloads whose markets are valid, in their order.
    pub fn new_many(payloads: Vec<QdrantPayload>) -> (r: Result<Vec<Self>, PointError>)
        ensures
            r is Ok,
            r->Ok_0@.map_values(|p: QdrantPointData| p.stored()) == payloads@.filter(
                |p: QdrantPayload| payload_error(p) is None,
            ),
    {
        let mut points: Vec<QdrantPointData> = Vec::new();
        for i in 0..payloads.len()
            invariant
                points@.map_values(|p: QdrantPointData| p.stored()) == payloads@.take(
                    i as int,
                ).filter(|p: QdrantPayload| payload_error(p) is None),
        {
            let ghost before = points@;
            proof {
                reveal(Seq::filter);
                assert(payloads@.take(i + 1).drop_last() =~= payloads@.take(i as int));
            }
            if let Ok(point) = Self::new(payloads[i].clone()) {
                points.push(point);
                assert(points@.map_values(|p: QdrantPointData| p.stored()) =~= before.map_values(
                    |p: QdrantPointData| p.stored(),
                ).push(payloads@[i as int]));
            }
        }
        assert(payloads@.take(payloads@.len() as int) =~= payloads@);
        Ok(points)
    }

    /// The identifier of the point: the UUID of its market.
    pub fn get_id(&self) -> (r: &str)
        ensures
            self.stored().market_info matches Some(info) && r@ == info.uuid@,
    {
        proof {
            use_type_invariant(self);
        }
        self.id.as_str()
    }

    /// The text to embed for the point.
    pub fn get_question_vector(&self) -> (r: &str)
        ensures
            self.stored().market_info matches Some(info) && r@ == question_vector(info),
    {
        proof {
            use_type_invariant(self);
        }
        self.question_vector.as_str()
    }

    /// The payload of the point.
    pub fn get_payload(&self) -> (r: QdrantPayload)
        ensures
            r == self.stored(),
            payload_error(r) is None,
    {
        proof {
            use_type_invariant(self);
        }
        self.payload.clone()
    }
}

} // verus!
