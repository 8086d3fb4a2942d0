//! Platform-specific formatting: Twitter cuts long posts, Reddit keeps
//! them whole.
use vstd::prelude::*;

use crate::simulation::SimulationPlatform;
use vstd::string::StringSliceAdditionalSpecFns;
use crate::strs::{owned, push_str, str_eq};

verus! {

broadcast use vstd::string::group_string_axioms, vstd::utf8::group_utf8_lib;

/// The UTF-8 bytes of a text.
pub open spec fn bytes_of(s: Seq<char>) -> Seq<u8> {
    vstd::utf8::encode_utf8(s)
}

/// A text as Twitter shows it: over 280 bytes, its first 277 bytes and
/// "..."; else unchanged.
pub open spec fn twitter_text(s: Seq<char>) -> Seq<char> {
    if bytes_of(s).len() > 280 {
        vstd::utf8::decode_utf8(bytes_of(s).subrange(0, 277)) + "..."@
    } else {
        s
    }
}

/// Twitter can cut the text: where it is over 280 bytes long, byte 277
/// starts a character (and its length, as every text's, fits a `usize`).
pub open spec fn twitter_cuttable(s: Seq<char>) -> bool {
    &&& bytes_of(s).len() <= usize::MAX
    &&& bytes_of(s).len() > 280 ==> vstd::utf8::is_char_boundary(bytes_of(s), 277)
}

fn cut_for_twitter(content: &str) -> (r: String)
    requires
        twitter_cuttable(content@),
    ensures
        r@ == twitter_text(content@),
{
    if content.len() > 280 {
        let (head, _) = content.split_at(277);
        proof {
            vstd::utf8::encode_utf8_decode_utf8(head@);
            assert(head.spec_bytes() == bytes_of(head@));
            assert(head.spec_bytes() == bytes_of(content@).subrange(0, 277));
            assert(head@ == vstd::utf8::decode_utf8(bytes_of(content@).subrange(0, 277)));
        }
        let mut r = owned(head);
        push_str(&mut r, "...");
        r
    } else {
        owned(content)
    }
}

/// The Twitter platform.
pub struct TwitterPlatform;

/// The Reddit platform.
pub struct RedditPlatform;

impl TwitterPlatform {
    pub fn platform_type(&self) -> (r: SimulationPlatform)
        ensures
            r == SimulationPlatform::Twitter,
    {
        SimulationPlatform::Twitter
    }

    /// A post as Twitter shows it.
    pub fn format_post_content(&self, content: &str) -> (r: String)
        requires
            twitter_cuttable(content@),
        ensures
            r@ == twitter_text(content@),
    {
        cut_for_twitter(content)
    }

    /// A comment as Twitter shows it.
    pub fn format_comment(&self, content: &str) -> (r: String)
        requires
            twitter_cuttable(content@),
        ensures
            r@ == twitter_text(content@),
    {
        cut_for_twitter(content)
    }

    pub fn max_post_length(&self) -> (r: usize)
        ensures
            r == 280,
    {
        280
    }

    pub fn supports_threading(&self) -> (r: bool)
        ensures
            r,
    {
        true
    }
}

impl RedditPlatform {
    pub fn platform_type(&self) -> (r: SimulationPlatform)
        ensures
            r == SimulationPlatform::Reddit,
    {
        SimulationPlatform::Reddit
    }

    /// A post as Reddit shows it: unchanged.
    pub fn format_post_content(&self, content: &str) -> (r: String)
        ensures
            r@ == content@,
    {
        owned(content)
    }

    /// A comment as Reddit shows it: unchanged.
    pub fn format_comment(&self, content: &str) -> (r: String)
        ensures
            r@ == content@,
    {
        owned(content)
    }

    pub fn max_post_length(&self) -> (r: usize)
        ensures
            r == 40000,
    {
        40000
    }

    pub fn supports_threading(&self) -> (r: bool)
        ensures
            r,
    {
        true
    }
}

/// A platform known by name.
pub enum PlatformKind {
    Twitter(TwitterPlatform),
    Reddit(RedditPlatform),
}

/// The platforms by name: "twitter" and "reddit".
pub struct PlatformManager {
    twitter: TwitterPlatform,
    reddit: RedditPlatform,
}

/// A text as the platform called `platform` shows it; unchanged on an
/// unknown platform.
pub open spec fn formatted(content: Seq<char>, platform: Seq<char>) -> Seq<char> {
    if platform == "twitter"@ {
        twitter_text(content)
    } else {
        content
    }
}

impl PlatformManager {
    pub fn new() -> (r: Self) {
        PlatformManager { twitter: TwitterPlatform, reddit: RedditPlatform }
    }

    /// The platform called `name`.
    pub fn get_platform(&self, name: &str) -> (r: Option<PlatformKind>)
        ensures
            name@ == "twitter"@ ==> r matches Some(PlatformKind::Twitter(_)),
            name@ == "reddit"@ ==> r matches Some(PlatformKind::Reddit(_)),
            name@ != "twitter"@ && name@ != "reddit"@ ==> r is None,
    {
        proof {
            reveal_strlit("twitter");
            reveal_strlit("reddit");
            assert("reddit"@.len() != "twitter"@.len());
        }
        if str_eq(name, "twitter") {
            Some(PlatformKind::Twitter(TwitterPlatform))
        } else if str_eq(name, "reddit") {
            Some(PlatformKind::Reddit(RedditPlatform))
        } else {
            None
        }
    }

    /// A post as the platform called `platform` shows it.
    pub fn format_post_content(&self, content: &str, platform: &str) -> (r: String)
        requires
            platform@ == "twitter"@ ==> twitter_cuttable(content@),
        ensures
            r@ == formatted(content@, platform@),
    {
        match self.get_platform(platform) {
            Some(PlatformKind::Twitter(p)) => p.format_post_content(content),
            Some(PlatformKind::Reddit(p)) => p.format_post_content(content),
            None => owned(content),
        }
    }

    /// A comment as the platform called `platform` shows it.
    pub fn format_comment(&self, content: &str, platform: &str) -> (r: String)
        requires
            platform@ == "twitter"@ ==> twitter_cuttable(content@),
        ensures
            r@ == formatted(content@, platform@),
    {
        match self.get_platform(platform) {
            Some(PlatformKind::Twitter(p)) => p.format_comment(content),
            Some(PlatformKind::Reddit(p)) => p.format_comment(content),
            None => owned(content),
        }
    }
}

} // verus!
