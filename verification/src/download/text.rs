//! The Markdown archived for a self-post.
use vstd::prelude::*;
use crate::post::Post;
use crate::text::push_str;

verus! {

/// `# {title}`, a blank line, `By /u/{author} in /r/{subreddit}`, a blank
/// line, then the post's text.
pub open spec fn self_post_markdown_spec(post: Post) -> Seq<char> {
    "# "@ + post.title@ + "\n\nBy /u/"@ + post.author@ + " in /r/"@ + post.subreddit@ + "\n\n"@
        + post.selftext@
}

/// The Markdown content of a self-post.
pub fn self_post_markdown(post: &Post) -> (r: String)
    ensures
        r@ == self_post_markdown_spec(*post),
{
    let mut s = String::from_str("# ");
    push_str(&mut s, post.title.as_str());
    push_str(&mut s, "\n\nBy /u/");
    push_str(&mut s, post.author.as_str());
    push_str(&mut s, " in /r/");
    push_str(&mut s, post.subreddit.as_str());
    push_str(&mut s, "\n\n");
    push_str(&mut s, post.selftext.as_str());
    s
}

} // verus!
