//! The frame of an HTML page, as plain values.

use vstd::prelude::*;

verus! {

/// What stands in the head of a page. The body is rendered apart.
#[derive(Clone, Debug, PartialEq, Eq)]
pub struct Page {
    /// The language of the document.
    pub lang: String,
    /// The title of the document.
    pub title: String,
    /// The text of a module script, if the page starts one.
    pub script: Option<String>,
    /// Where the stylesheet is linked from, if the page has one.
    pub stylesheet: Option<String>,
}

/// The view of a `Page`.
pub struct PageView {
    pub lang: Seq<char>,
    pub title: Seq<char>,
    pub script: Option<Seq<char>>,
    pub stylesheet: Option<Seq<char>>,
}

impl View for Page {
    type V = PageView;

    open spec fn view(&self) -> PageView {
        PageView {
            lang: self.lang@,
            title: self.title@,
            script: match self.script {
                Some(s) => Some(s@),
                None => None,
            },
            stylesheet: match self.stylesheet {
                Some(s) => Some(s@),
                None => None,
            },
        }
    }
}

/// The bare page: an English document with its title, no script and no
/// stylesheet.
pub fn index() -> (page: Page)
    ensures
        page@ == (PageView {
            lang: "en"@,
            title: "Example app"@,
            script: None,
            stylesheet: None,
        }),
{
    Page {
        lang: String::from_str("en"),
        title: String::from_str("Example app"),
        script: None,
        stylesheet: None,
    }
}

} // verus!
