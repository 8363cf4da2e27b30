use vstd::prelude::*;
use vstd::string::*;
use crate::query::params_view;

verus! {

/// A piece of the text of a chat message.
#[derive(Debug, Clone)]
pub struct HelixMessageFragment {
    pub text: String,
}

/// A badge shown beside a commenter's name.
#[derive(Debug, Clone)]
pub struct HelixUserBadge {
    pub id: String,
    pub version: String,
}

/// The message of a video comment.
#[derive(Debug, Clone)]
pub struct HelixMessage {
    pub body: String,
    pub fragments: Option<Vec<HelixMessageFragment>>,
    pub is_action: bool,
    pub user_badges: Option<Vec<HelixUserBadge>>,
    pub user_color: Option<String>,
}

/// The parameters of a request for a page of video comments: the cursor of
/// the page when one is given, else the start of the video.
pub open spec fn comments_query_spec(cursor: Option<String>) -> Seq<(Seq<char>, Seq<char>)> {
    match cursor {
        Some(c) => seq![("cursor"@, c@)],
        None => seq![("content_offset_seconds"@, "0"@)],
    }
}

/// The query parameters of a request for a page of video comments.
pub fn comments_query(cursor: Option<String>) -> (r: Vec<(String, String)>)
    ensures
        params_view(r@) == comments_query_spec(cursor),
{
    let mut data: Vec<(String, String)> = Vec::new();
    match cursor {
        Some(c) => {
            data.push((String::from_str("cursor"), c));
        },
        None => {
            data.push((String::from_str("content_offset_seconds"), String::from_str("0")));
        },
    }
    assert(params_view(data@) =~= comments_query_spec(cursor));
    data
}

} // verus!
