//! Things that can be summed up in a line: news articles and tweets.

use vstd::prelude::*;
use vstd::std_specs::cmp::{PartialOrdIs, PartialOrdSpec};
use vstd::string::*;

verus! {

/// The summary of something of which only the author is told.
pub open spec fn read_more_text(author_line: Seq<char>) -> Seq<char> {
    "(Read more from "@ + author_line + "...)"@
}

/// Something that can be summed up in a line of text.
pub trait Summary {
    /// Writes the summary. Unless a type writes its own, the summary only points to
    /// the author, as `summarize_author` names them.
    fn summarize(&self) -> (line: String)
        default_ensures
            exists|author: String|
                #[trigger] call_ensures(Self::summarize_author, (self,), author) && line@
                    == read_more_text(author@),
    {
        let author = self.summarize_author();
        let mut line = String::from_str("(Read more from ");
        line.append(author.as_str());
        line.append("...)");
        line
    }

    /// Writes the author as a summary names them.
    fn summarize_author(&self) -> String;
}

/// An article in a newspaper.
pub struct NewsArticle {
    pub author: String,
    pub headline: String,
    pub content: String,
}

impl Summary for NewsArticle {
    /// The author's name as it stands.
    fn summarize_author(&self) -> (line: String)
        ensures
            line@ == self.author@,
    {
        self.author.clone()
    }
}

/// A tweet.
pub struct Tweet {
    pub username: String,
    pub content: String,
    pub reply: bool,
    pub retweet: bool,
}

/// The summary of a tweet: who wrote it, and what.
pub open spec fn tweet_summary(username: Seq<char>, content: Seq<char>) -> Seq<char> {
    username + " : "@ + content
}

impl Summary for Tweet {
    /// The user's name, a colon between spaces, and the tweet itself.
    fn summarize(&self) -> (line: String)
        ensures
            line@ == tweet_summary(self.username@, self.content@),
    {
        let mut line = self.username.clone();
        line.append(" : ");
        line.append(self.content.as_str());
        line
    }

    /// The user's name behind an `@`.
    fn summarize_author(&self) -> (line: String)
        ensures
            line@ == "@"@ + self.username@,
    {
        let mut line = String::from_str("@");
        line.append(self.username.as_str());
        line
    }
}

/// The text of the news flash for something with the summary `summary`.
pub open spec fn breaking_news_text(summary: Seq<char>) -> Seq<char> {
    "Breaking news! "@ + summary
}

/// Writes the news flash for `item`: `Breaking news! ` and then the summary that the
/// item writes of itself.
pub fn notify<T: Summary>(item: &T) -> (flash: String)
    ensures
        exists|summary: String|
            #[trigger] call_ensures(T::summarize, (item,), summary) && flash@
                == breaking_news_text(summary@),
{
    let mut flash = String::from_str("Breaking news! ");
    let summary = item.summarize();
    flash.append(summary.as_str());
    flash
}

/// A tweet to try summaries on.
pub fn returns_summarizable() -> (tweet: Tweet)
    ensures
        tweet.username@ == "horse_ebooks"@,
        tweet.content@ == "of course, as you probably already know, people"@,
        !tweet.reply,
        !tweet.retweet,
{
    Tweet {
        username: String::from_str("horse_ebooks"),
        content: String::from_str("of course, as you probably already know, people"),
        reply: false,
        retweet: false,
    }
}

/// Two values of one type.
pub struct Pair<T> {
    pub x: T,
    pub y: T,
}

/// One of the two members of a pair.
#[derive(Clone, Copy, Debug, PartialEq, Eq, Structural)]
pub enum Member {
    X,
    Y,
}

impl<T> Pair<T> {
    /// The pair of `x` and `y`.
    pub fn new(x: T, y: T) -> (pair: Pair<T>)
        ensures
            pair.x == x,
            pair.y == y,
    {
        Pair { x, y }
    }
}

impl<T: PartialOrd> Pair<T> {
    /// Picks the member to display as the largest: `x` where it is greater than or
    /// equal to `y`, and `y` in every other case, also where the two cannot be
    /// compared.
    pub fn cmp_display(&self) -> (largest: Member)
        ensures
            T::obeys_partial_cmp_spec() ==> (largest == Member::X <==> self.x.is_ge(&self.y)),
    {
        if self.x >= self.y {
            Member::X
        } else {
            Member::Y
        }
    }
}

} // verus!
