use vstd::prelude::*;
use vstd::string::*;

use crate::text::{joined, json_string, json_string_literal, opt_view, strings_view};

verus! {

/// Why a tweet may not be sent.
#[derive(Debug, Clone, Copy, PartialEq, Eq, Structural)]
pub enum TweetError {
    EmptyContent,
    QuoteAndReply,
    EmptyMediaIds,
}

impl TweetError {
    pub open spec fn spec_message(self) -> Seq<char> {
        match self {
            TweetError::EmptyContent => "Tweet content cannot be empty"@,
            TweetError::QuoteAndReply => "Tweet cannot be both a quote and a reply"@,
            TweetError::EmptyMediaIds => "Media IDs cannot be empty"@,
        }
    }

    /// The text that the error is reported with.
    pub fn message(&self) -> (m: String)
        ensures
            m@ == self.spec_message(),
    {
        match self {
            TweetError::EmptyContent => String::from_str("Tweet content cannot be empty"),
            TweetError::QuoteAndReply => String::from_str("Tweet cannot be both a quote and a reply"),
            TweetError::EmptyMediaIds => String::from_str("Media IDs cannot be empty"),
        }
    }
}

struct ReplyData {
    in_reply_to_tweet_id: String,
}

struct MediaData {
    media_ids: Vec<String>,
}

/// A tweet to be posted: its text, and optionally the tweet it quotes, the
/// tweet it replies to and the media it carries.
pub struct Tweet {
    content: String,
    quote_tweet_id: Option<String>,
    reply_data: Option<ReplyData>,
    media_data: Option<MediaData>,
}

/// What a tweet holds.
pub struct TweetView {
    pub content: Seq<char>,
    pub quote_tweet_id: Option<Seq<char>>,
    pub reply_to: Option<Seq<char>>,
    pub media_ids: Option<Seq<Seq<char>>>,
}

impl View for Tweet {
    type V = TweetView;

    closed spec fn view(&self) -> TweetView {
        TweetView {
            content: self.content@,
            quote_tweet_id: opt_view(self.quote_tweet_id),
            reply_to: match self.reply_data {
                Some(r) => Some(r.in_reply_to_tweet_id@),
                None => None,
            },
            media_ids: match self.media_data {
                Some(m) => Some(strings_view(m.media_ids@)),
                None => None,
            },
        }
    }
}

/// A tweet of text alone.
pub open spec fn text_only(content: Seq<char>) -> TweetView {
    TweetView { content, quote_tweet_id: None, reply_to: None, media_ids: None }
}

/// `t` made to quote the tweet `quote`.
pub open spec fn with_quote(t: TweetView, quote: Seq<char>) -> TweetView {
    TweetView { quote_tweet_id: Some(quote), ..t }
}

/// `t` made a reply to the tweet `reply`.
pub open spec fn with_reply(t: TweetView, reply: Seq<char>) -> TweetView {
    TweetView { reply_to: Some(reply), ..t }
}

/// `t` carrying the media `ids`.
pub open spec fn with_media(t: TweetView, ids: Seq<Seq<char>>) -> TweetView {
    TweetView { media_ids: Some(ids), ..t }
}

/// `t` with no media.
pub open spec fn without_media(t: TweetView) -> TweetView {
    TweetView { media_ids: None, ..t }
}

/// Whether a tweet may be sent, and if not, the first rule that it breaks.
pub open spec fn tweet_check(t: TweetView) -> Result<(), TweetError> {
    if t.content.len() == 0 {
        Err(TweetError::EmptyContent)
    } else if t.quote_tweet_id is Some && t.reply_to is Some {
        Err(TweetError::QuoteAndReply)
    } else if t.media_ids matches Some(ids) && ids.len() == 0 {
        Err(TweetError::EmptyMediaIds)
    } else {
        Ok(())
    }
}

/// A JSON array of strings, in the compact form.
pub open spec fn json_string_array(items: Seq<Seq<char>>) -> Seq<char> {
    "["@ + joined(items.map_values(|s: Seq<char>| json_string_literal(s)), ","@) + "]"@
}

/// The JSON body of a tweet: an object with `content` first, then
/// `quote_tweet_id`, `reply_data` and `media_data` where they are present
/// and nothing for those that are absent.
pub open spec fn tweet_json(t: TweetView) -> Seq<char> {
    "{\"content\":"@ + json_string_literal(t.content)
        + match t.quote_tweet_id {
            Some(q) => ",\"quote_tweet_id\":"@ + json_string_literal(q),
            None => Seq::empty(),
        }
        + match t.reply_to {
            Some(r) => ",\"reply_data\":{\"in_reply_to_tweet_id\":"@ + json_string_literal(r) + "}"@,
            None => Seq::empty(),
        }
        + match t.media_ids {
            Some(ids) => ",\"media_data\":{\"media_ids\":"@ + json_string_array(ids) + "}"@,
            None => Seq::empty(),
        }
        + "}"@
}

/// Writes a list of strings as a JSON array.
fn json_array(items: &Vec<String>) -> (res: String)
    ensures
        res@ == json_string_array(strings_view(items@)),
{
    let mut lits: Vec<String> = Vec::new();
    let n = items.len();
    let mut i: usize = 0;
    while i < n
        invariant
            n == items@.len(),
            i <= n,
            lits@.len() == i,
            forall|k: int| 0 <= k < i ==> #[trigger] lits@[k]@ == json_string_literal(items@[k]@),
        decreases n - i,
    {
        let lit = json_string(items[i].as_str());
        lits.push(lit);
        i = i + 1;
    }
    assert(strings_view(lits@) =~= strings_view(items@).map_values(
        |s: Seq<char>| json_string_literal(s),
    ));
    let inner = crate::text::join_strings(&lits, ",");
    let mut res = String::from_str("[");
    res.append(inner.as_str());
    res.append("]");
    res
}

impl Tweet {
    /// A tweet with the given text and nothing else.
    pub fn new(content: String) -> (t: Self)
        ensures
            t@ == text_only(content@),
    {
        Tweet { content, quote_tweet_id: None, reply_data: None, media_data: None }
    }

    /// Checks the rules a tweet must meet before it is sent: its text is not
    /// empty, it is not both a quote and a reply, and where it carries media
    /// the list of media ids is not empty. The first rule broken is reported.
    pub fn validate_content(&self) -> (res: Result<(), TweetError>)
        ensures
            res == tweet_check(self@),
    {
        if self.content.as_str().is_empty() {
            return Err(TweetError::EmptyContent);
        }
        if self.quote_tweet_id.is_some() && self.reply_data.is_some() {
            return Err(TweetError::QuoteAndReply);
        }
        if let Some(media_data) = &self.media_data {
            if media_data.media_ids.len() == 0 {
                return Err(TweetError::EmptyMediaIds);
            }
        }
        Ok(())
    }

    /// Makes the tweet quote another one; the rest is kept.
    pub fn assign_quote_tweet_id(&mut self, quote_tweet_id: String)
        ensures
            final(self)@ == with_quote(old(self)@, quote_tweet_id@),
    {
        self.quote_tweet_id = Some(quote_tweet_id);
    }

    /// Makes the tweet a reply to another one; the rest is kept.
    pub fn assign_reply_tweet_id(&mut self, reply_tweet_id: String)
        ensures
            final(self)@ == with_reply(old(self)@, reply_tweet_id@),
    {
        self.reply_data = Some(ReplyData { in_reply_to_tweet_id: reply_tweet_id });
    }

    /// Attaches the given media to the tweet; the rest is kept.
    pub fn assign_media_ids(&mut self, media_ids: Vec<String>)
        ensures
            final(self)@ == with_media(old(self)@, strings_view(media_ids@)),
    {
        self.media_data = Some(MediaData { media_ids });
    }

    /// The JSON body that the tweet is sent as.
    pub fn to_json(&self) -> (body: String)
        ensures
            body@ == tweet_json(self@),
    {
        let mut body = String::from_str("{\"content\":");
        let content = json_string(self.content.as_str());
        body.append(content.as_str());
        if let Some(q) = &self.quote_tweet_id {
            body.append(",\"quote_tweet_id\":");
            let lit = json_string(q.as_str());
            body.append(lit.as_str());
        }
        if let Some(r) = &self.reply_data {
            body.append(",\"reply_data\":{\"in_reply_to_tweet_id\":");
            let lit = json_string(r.in_reply_to_tweet_id.as_str());
            body.append(lit.as_str());
            body.append("}");
        }
        if let Some(m) = &self.media_data {
            body.append(",\"media_data\":{\"media_ids\":");
            let arr = json_array(&m.media_ids);
            body.append(arr.as_str());
            body.append("}");
        }
        body.append("}");
        body
    }
}

impl Default for Tweet {
    /// An empty tweet: no text and nothing attached.
    fn default() -> (t: Self)
        ensures
            t@ == text_only(Seq::empty()),
    {
        Tweet { content: String::new(), quote_tweet_id: None, reply_data: None, media_data: None }
    }
}

} // verus!

verus! {

/// A tweet may be sent exactly when its text is not empty, it is not both a
/// quote and a reply, and it carries no empty list of media.
pub proof fn lemma_tweet_rules(t: TweetView)
    ensures
        (tweet_check(t) is Ok) <==> (t.content.len() > 0 && !(t.quote_tweet_id is Some && t.reply_to is Some)
            && (t.media_ids matches Some(ids) ==> ids.len() > 0)),
{
}

/// A tweet made of text alone may be sent exactly when the text is not
/// empty, and its body holds the text alone.
pub proof fn lemma_new_tweet(content: Seq<char>)
    ensures
        (tweet_check(text_only(content)) is Ok) <==> content.len() > 0,
        tweet_json(text_only(content)) == "{\"content\":"@ + json_string_literal(content) + "}"@,
{
    let e = Seq::<char>::empty();
    assert("{\"content\":"@ + json_string_literal(content) + e + e + e + "}"@ =~= "{\"content\":"@
        + json_string_literal(content) + "}"@);
}

/// Once a tweet quotes one tweet and replies to another, it is refused as
/// both a quote and a reply (where its text is not empty), in whichever
/// order the two were set.
pub proof fn lemma_quote_and_reply_refused(t: TweetView, quote: Seq<char>, reply: Seq<char>)
    requires
        t.content.len() > 0,
    ensures
        tweet_check(with_reply(with_quote(t, quote), reply)) == Err::<(), TweetError>(TweetError::QuoteAndReply),
        with_reply(with_quote(t, quote), reply) == with_quote(with_reply(t, reply), quote),
{
}

/// Attaching a non-empty list of media keeps a tweet that may be sent
/// sendable.
pub proof fn lemma_media_keeps_valid(t: TweetView, ids: Seq<Seq<char>>)
    requires
        tweet_check(t) is Ok,
        ids.len() > 0,
    ensures
        tweet_check(with_media(t, ids)) is Ok,
{
}

} // verus!

verus! {

/// Attaching media to a tweet adds the `media_data` object with those ids
/// at the end of its body, whatever else the tweet holds (a quote, a reply,
/// or neither): the body is the body without media, its closing brace
/// replaced by the media object and the brace.
pub proof fn lemma_media_always_written(t: TweetView, ids: Seq<Seq<char>>)
    ensures
        tweet_json(with_media(t, ids)) == tweet_json(without_media(t)).drop_last()
            + ",\"media_data\":{\"media_ids\":"@ + json_string_array(ids) + "}"@ + "}"@,
{
    reveal_strlit("}");
    let base = without_media(t);
    let head = "{\"content\":"@ + json_string_literal(t.content) + match t.quote_tweet_id {
        Some(q) => ",\"quote_tweet_id\":"@ + json_string_literal(q),
        None => Seq::empty(),
    } + match t.reply_to {
        Some(r) => ",\"reply_data\":{\"in_reply_to_tweet_id\":"@ + json_string_literal(r) + "}"@,
        None => Seq::empty(),
    };
    assert(tweet_json(base) =~= head + Seq::<char>::empty() + "}"@);
    assert(tweet_json(base).drop_last() =~= head);
    assert(tweet_json(with_media(t, ids)) =~= head + (",\"media_data\":{\"media_ids\":"@ + json_string_array(ids)
        + "}"@) + "}"@);
}

/// A tweet of text with media attached is written as its text followed by
/// the media object.
pub proof fn lemma_text_with_media(content: Seq<char>, ids: Seq<Seq<char>>)
    ensures
        tweet_json(with_media(text_only(content), ids)) == "{\"content\":"@ + json_string_literal(content)
            + ",\"media_data\":{\"media_ids\":"@ + json_string_array(ids) + "}"@ + "}"@,
{
    let e = Seq::<char>::empty();
    assert(tweet_json(with_media(text_only(content), ids)) =~= "{\"content\":"@ + json_string_literal(content)
        + e + e + (",\"media_data\":{\"media_ids\":"@ + json_string_array(ids) + "}"@) + "}"@);
}

/// A JSON array of one string is that string's literal in brackets, and
/// one more string adds a comma and its literal before the closing bracket.
pub proof fn lemma_json_array_items(ids: Seq<Seq<char>>, id: Seq<char>)
    ensures
        json_string_array(seq![id]) == "["@ + json_string_literal(id) + "]"@,
        ids.len() > 0 ==> json_string_array(ids.push(id)) == json_string_array(ids).drop_last() + ","@
            + json_string_literal(id) + "]"@,
{
    reveal_strlit("]");
    let f = |s: Seq<char>| json_string_literal(s);
    assert(seq![id].map_values(f) =~= seq![json_string_literal(id)]);
    if ids.len() > 0 {
        let m = ids.push(id).map_values(f);
        assert(m.drop_last() =~= ids.map_values(f));
        assert(m.last() == json_string_literal(id));
        let inner = joined(ids.map_values(f), ","@);
        assert(json_string_array(ids) =~= ("["@ + inner) + "]"@);
        assert(json_string_array(ids).drop_last() =~= "["@ + inner);
        assert(json_string_array(ids.push(id)) =~= "["@ + (inner + ","@ + json_string_literal(id)) + "]"@);
    }
}

} // verus!
