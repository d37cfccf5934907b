use vstd::prelude::*;
use crate::error::{Error, ErrorView, Missing};
use crate::html::{select, selected, Element};
use crate::http::{Body, BodyView, Method, Request, RequestView};
use crate::site::{
    profile_address, profile_url, GALLERY_ID_ATTR, GALLERY_SELECTOR, POST_ID_ATTR, POST_SELECTOR,
};
use crate::text::{decimal, join, joined, push_decimal, trim, trimmed};

verus! {

/// A gallery that the user has content in.
#[derive(Clone, Debug, PartialEq, Eq)]
pub struct GalleryInfo {
    pub id: String,
    pub name: String,
}

impl DeepView for GalleryInfo {
    type V = (Seq<char>, Seq<char>);

    open spec fn deep_view(&self) -> Self::V {
        (self.id@, self.name@)
    }
}

/// The first of the attributes that an element was read with.
pub open spec fn first_attr(element: (Seq<Option<Seq<char>>>, Seq<Seq<char>>)) -> Option<
    Seq<char>,
> {
    if element.0.len() > 0 {
        element.0[0]
    } else {
        None
    }
}

/// The identifiers on a listing page: the first attribute of every item
/// that has it, in page order.
pub open spec fn posts_of(items: Seq<(Seq<Option<Seq<char>>>, Seq<Seq<char>>)>) -> Seq<Seq<char>>
    decreases items.len(),
{
    if items.len() == 0 {
        Seq::empty()
    } else {
        let before = posts_of(items.drop_last());
        match first_attr(items.last()) {
            Some(id) => before.push(id),
            None => before,
        }
    }
}

/// The galleries on a profile page: every entry whose first attribute is
/// there and not empty, with that attribute as id and the entry's trimmed
/// text as name, in page order; an id may come twice.
pub open spec fn galleries_of(entries: Seq<(Seq<Option<Seq<char>>>, Seq<Seq<char>>)>) -> Seq<
    (Seq<char>, Seq<char>),
>
    decreases entries.len(),
{
    if entries.len() == 0 {
        Seq::empty()
    } else {
        let before = galleries_of(entries.drop_last());
        match first_attr(entries.last()) {
            Some(id) => if id.len() > 0 {
                before.push((id, trimmed(joined(entries.last().1))))
            } else {
                before
            },
            None => before,
        }
    }
}

/// The address of one listing page: the profile page's, the gallery filter
/// where there is one, and the page number, which counts from one.
pub open spec fn listing_url(
    user_id: Seq<char>,
    post_type: Seq<char>,
    gallery_id: Option<Seq<char>>,
    page: nat,
) -> Seq<char> {
    let index = profile_url(user_id, post_type) + "/index?"@;
    let scoped = match gallery_id {
        Some(id) => index + "cno="@ + id + "&"@,
        None => index,
    };
    scoped + "p="@ + decimal(page)
}

/// A plain request for a page.
pub open spec fn page_request(url: Seq<char>) -> RequestView {
    RequestView { method: Method::Get, url, headers: Seq::empty(), body: BodyView::Empty }
}

fn fetch(url: String) -> (r: Request)
    ensures
        r@ == page_request(url@),
{
    let r = Request { method: Method::Get, url, headers: Vec::new(), body: Body::Empty };
    assert(r.headers.deep_view() =~= Seq::empty());
    r
}

fn one_attr(name: &str) -> (r: Vec<String>)
    ensures
        r.deep_view() == seq![name@],
{
    let mut attrs: Vec<String> = Vec::new();
    attrs.push(String::from_str(name));
    assert(attrs.deep_view() =~= seq![name@]);
    attrs
}

fn first_of(element: &Element) -> (r: Option<&String>)
    ensures
        r.deep_view() == first_attr(element.deep_view()),
{
    if element.attrs.len() > 0 {
        element.attrs[0].as_ref()
    } else {
        None
    }
}

/// The identifiers that the items of a listing page carry.
pub fn posts_from(items: &Vec<Element>) -> (ids: Vec<String>)
    ensures
        ids.deep_view() == posts_of(items.deep_view()),
{
    let mut ids: Vec<String> = Vec::new();
    let mut i: usize = 0;
    assert(ids.deep_view() =~= Seq::empty());
    while i < items.len()
        invariant
            i <= items.len(),
            ids.deep_view() == posts_of(items.deep_view().take(i as int)),
        decreases items.len() - i,
    {
        let ghost before = ids.deep_view();
        assert(items.deep_view().take(i + 1).drop_last() =~= items.deep_view().take(i as int));
        match first_of(&items[i]) {
            Some(id) => {
                ids.push(id.clone());
                assert(ids.deep_view() =~= before.push(id@));
            },
            None => {},
        }
        i += 1;
    }
    assert(items.deep_view().take(i as int) =~= items.deep_view());
    ids
}

/// The galleries that the entries of a profile page's filter stand for.
pub fn galleries_from(entries: &Vec<Element>) -> (galleries: Vec<GalleryInfo>)
    ensures
        galleries.deep_view() == galleries_of(entries.deep_view()),
{
    let mut galleries: Vec<GalleryInfo> = Vec::new();
    let mut i: usize = 0;
    assert(galleries.deep_view() =~= Seq::empty());
    while i < entries.len()
        invariant
            i <= entries.len(),
            galleries.deep_view() == galleries_of(entries.deep_view().take(i as int)),
        decreases entries.len() - i,
    {
        let ghost before = galleries.deep_view();
        assert(entries.deep_view().take(i + 1).drop_last() =~= entries.deep_view().take(
            i as int,
        ));
        match first_of(&entries[i]) {
            Some(id) => {
                let name = join(&entries[i].text);
                if !id.as_str().is_empty() {
                    let gallery = GalleryInfo { id: id.clone(), name: trim(name.as_str()) };
                    galleries.push(gallery);
                    assert(galleries.deep_view() =~= before.push(
                        (id@, trimmed(joined(entries[i as int].text.deep_view()))),
                    ));
                }
            },
            None => {},
        }
        i += 1;
    }
    assert(entries.deep_view().take(i as int) =~= entries.deep_view());
    galleries
}

/// Discovery: what a user's pages list.
pub struct Scraper;

impl Scraper {
    /// The request for the profile page that lists a user's galleries.
    pub fn galleries_request(user_id: &str, post_type: &str) -> (r: Request)
        ensures
            r@ == page_request(profile_url(user_id@, post_type@)),
    {
        fetch(profile_address(user_id, post_type))
    }

    /// The galleries listed on a profile page. Fails only where the filter's
    /// selector is no selector.
    pub fn get_galleries(page: &str) -> (r: Result<Vec<GalleryInfo>, Error>)
        ensures
            match selected(page@, GALLERY_SELECTOR@, seq![GALLERY_ID_ATTR@]) {
                Some(entries) => r matches Ok(galleries) && galleries.deep_view() == galleries_of(
                    entries,
                ),
                None => r matches Err(error) && error@ == ErrorView::Parse(Missing::Selector),
            },
    {
        match select(page, GALLERY_SELECTOR, &one_attr(GALLERY_ID_ATTR)) {
            Some(entries) => Ok(galleries_from(&entries)),
            None => Err(Error::Parse(Missing::Selector)),
        }
    }

    /// The request for one listing page.
    pub fn posts_request(
        user_id: &str,
        post_type: &str,
        gallery_id: Option<&str>,
        page: u32,
    ) -> (r: Request)
        ensures
            r@ == page_request(
                listing_url(user_id@, post_type@, gallery_id.deep_view(), page as nat),
            ),
    {
        let mut url = profile_address(user_id, post_type);
        url.append("/index?");
        match gallery_id {
            Some(id) => {
                url.append("cno=");
                url.append(id);
                url.append("&");
            },
            None => {},
        }
        url.append("p=");
        push_decimal(&mut url, page as u64);
        fetch(url)
    }

    /// The identifiers listed on a listing page; none means that the listing
    /// has ended. Fails only where the items' selector is no selector.
    pub fn get_posts(page: &str) -> (r: Result<Vec<String>, Error>)
        ensures
            match selected(page@, POST_SELECTOR@, seq![POST_ID_ATTR@]) {
                Some(items) => r matches Ok(ids) && ids.deep_view() == posts_of(items),
                None => r matches Err(error) && error@ == ErrorView::Parse(Missing::Selector),
            },
    {
        match select(page, POST_SELECTOR, &one_attr(POST_ID_ATTR)) {
            Some(items) => Ok(posts_from(&items)),
            None => Err(Error::Parse(Missing::Selector)),
        }
    }
}

} // verus!
