//! The navigation bar at the top of every rendered page: an ordered list of
//! titles and links, and its HTML form.
use vstd::prelude::*;

use crate::text::{push_str_chars, string_from_chars};

verus! {

/// One element of the bar: a plain title, or a link that may have no target.
#[derive(Debug, Clone, PartialEq)]
pub enum HeaderItem {
    Title { label: String },
    Link { label: String, url: Option<String> },
}

/// The mathematical form of one element.
#[verifier::ext_equal]
pub enum HeaderItemV {
    Title { label: Seq<char> },
    Link { label: Seq<char>, url: Option<Seq<char>> },
}

/// The view of one element.
pub open spec fn v_header_item(i: HeaderItem) -> HeaderItemV {
    match i {
        HeaderItem::Title { label } => HeaderItemV::Title { label: label@ },
        HeaderItem::Link { label, url } => HeaderItemV::Link {
            label: label@,
            url: crate::views::v_opt_str(url),
        },
    }
}

/// The views of an element list.
pub open spec fn v_header_items(s: Seq<HeaderItem>) -> Seq<HeaderItemV> {
    Seq::new(s.len(), |i: int| v_header_item(s[i]))
}

/// The HTML of one element: a titled span, an anchor, or a span marking a
/// link without a target.
pub open spec fn header_item_html(i: HeaderItemV) -> Seq<char> {
    match i {
        HeaderItemV::Title { label } => "<span class=\"title\">"@ + label + "</span>"@,
        HeaderItemV::Link { label, url } => match url {
            Some(u) => "<a href=\""@ + u + "\">"@ + label + "</a>"@,
            None => "<span class=\"nolink\">"@ + label + " (none)</span>"@,
        },
    }
}

/// The HTML of an element list, separated by vertical bars.
pub open spec fn header_items_html(s: Seq<HeaderItemV>) -> Seq<char>
    decreases s.len(),
{
    if s.len() == 0 {
        Seq::empty()
    } else if s.len() == 1 {
        header_item_html(s[0])
    } else {
        header_item_html(s[0]) + " | "@ + header_items_html(s.skip(1))
    }
}

/// The HTML of a whole bar.
pub open spec fn header_bar_html(s: Seq<HeaderItemV>) -> Seq<char> {
    "<div class=\"navigation\">"@ + header_items_html(s) + "</div>"@
}

/// The navigation bar.
pub struct HeaderBar {
    items: Vec<HeaderItem>,
}

impl HeaderBar {
    /// The elements of the bar, in order.
    pub closed spec fn view(self) -> Seq<HeaderItemV> {
        v_header_items(self.items@)
    }

    /// An empty bar.
    pub fn new() -> (r: HeaderBar)
        ensures
            r.view() == Seq::<HeaderItemV>::empty(),
    {
        let r = HeaderBar { items: Vec::new() };
        proof {
            assert(r.view() =~= Seq::<HeaderItemV>::empty());
        }
        r
    }

    /// The bar with one more element at the end.
    pub fn with_item(self, item: HeaderItem) -> (r: HeaderBar)
        ensures
            r.view() == self.view().push(v_header_item(item)),
    {
        let ghost iv = v_header_item(item);
        let mut items = self.items;
        items.push(item);
        let r = HeaderBar { items };
        proof {
            assert(r.view() =~= self.view().push(iv));
        }
        r
    }

    /// The bar with a title at the end.
    pub fn with_title(self, label: String) -> (r: HeaderBar)
        ensures
            r.view() == self.view().push(HeaderItemV::Title { label: label@ }),
    {
        self.with_item(HeaderItem::Title { label })
    }

    /// The bar with a link at the end.
    pub fn with_link(self, label: &str, url: Option<String>) -> (r: HeaderBar)
        ensures
            r.view() == self.view().push(
                HeaderItemV::Link { label: label@, url: crate::views::v_opt_str(url) },
            ),
    {
        let ghost uv = crate::views::v_opt_str(url);
        let mut owned: Vec<char> = Vec::new();
        push_str_chars(&mut owned, label);
        let label_string = string_from_chars(&owned);
        self.with_item(HeaderItem::Link { label: label_string, url })
    }

    /// The HTML of the bar.
    pub fn render(&self) -> (out: String)
        ensures
            out@ == header_bar_html(self.view()),
    {
        let mut chars: Vec<char> = Vec::new();
        push_str_chars(&mut chars, "<div class=\"navigation\">");
        if self.items.len() > 0 {
            render_items(&self.items, 0, &mut chars);
        }
        push_str_chars(&mut chars, "</div>");
        proof {
            if self.items@.len() == 0 {
                assert(v_header_items(self.items@) =~= Seq::<HeaderItemV>::empty());
                assert(header_items_html(v_header_items(self.items@)) =~= Seq::<char>::empty());
            } else {
                assert(v_header_items(self.items@).skip(0) =~= v_header_items(self.items@));
            }
            assert(chars@ =~= header_bar_html(self.view()));
        }
        string_from_chars(&chars)
    }
}

/// Appends the HTML of one element to `out`.
fn render_item(i: &HeaderItem, out: &mut Vec<char>)
    ensures
        final(out)@ == old(out)@ + header_item_html(v_header_item(*i)),
{
    match i {
        HeaderItem::Title { label } => {
            push_str_chars(out, "<span class=\"title\">");
            push_str_chars(out, label.as_str());
            push_str_chars(out, "</span>");
            proof {
                assert(out@ =~= old(out)@ + header_item_html(v_header_item(*i)));
            }
        },
        HeaderItem::Link { label, url } => {
            match url {
                Some(u) => {
                    push_str_chars(out, "<a href=\"");
                    push_str_chars(out, u.as_str());
                    push_str_chars(out, "\">");
                    push_str_chars(out, label.as_str());
                    push_str_chars(out, "</a>");
                },
                None => {
                    push_str_chars(out, "<span class=\"nolink\">");
                    push_str_chars(out, label.as_str());
                    push_str_chars(out, " (none)</span>");
                },
            }
            proof {
                assert(out@ =~= old(out)@ + header_item_html(v_header_item(*i)));
            }
        },
    }
}

/// Appends the HTML of the elements from position `k` on, bar-separated.
fn render_items(items: &Vec<HeaderItem>, k: usize, out: &mut Vec<char>)
    requires
        k < items@.len(),
    ensures
        final(out)@ == old(out)@ + header_items_html(v_header_items(items@).skip(k as int)),
    decreases items@.len() - k,
{
    let ghost tail = v_header_items(items@).skip(k as int);
    proof {
        assert(tail[0] == v_header_item(items@[k as int]));
    }
    render_item(&items[k], out);
    if k < items.len() - 1 {
        push_str_chars(out, " | ");
        render_items(items, k + 1, out);
        proof {
            assert(tail.skip(1) =~= v_header_items(items@).skip(k as int + 1));
            assert(tail.len() > 1);
            assert(out@ =~= old(out)@ + header_items_html(tail));
        }
    } else {
        proof {
            assert(tail.len() == 1);
            assert(out@ =~= old(out)@ + header_items_html(tail));
        }
    }
}

} // verus!
