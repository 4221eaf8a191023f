//! The question a listing asks of the interface, and how it is written into
//! an address.

use crate::text::{decimal, decimal_text};
use vstd::prelude::*;

verus! {

/// For whom the content of a manga is meant.
#[derive(Debug, Clone, Copy, PartialEq, Eq, Structural)]
pub enum Rating {
    Safe,
    Suggestive,
    Erotica,
    Pornographic,
}

/// The direction of an ordering.
#[derive(Debug, Clone, Copy, PartialEq, Eq, Structural)]
pub enum Order {
    Asc,
    Desc,
}

/// By what a listing is ordered. Where both are given, the number of
/// followers comes first.
#[derive(Debug, Clone, Copy, PartialEq, Eq, Structural)]
pub struct ListOrder {
    pub followed_count: Option<Order>,
    pub latest_uploaded_chapter: Option<Order>,
}

/// The question a listing asks: how many entries from which offset, with
/// which title, of which ratings, in which order.
#[derive(Debug)]
pub struct MangaList {
    pub limit: u32,
    pub offset: u128,
    pub title: Option<String>,
    pub content_rating: Vec<Rating>,
    pub order: Option<ListOrder>,
}

/// What a `MangaList` holds.
pub struct MangaListView {
    pub limit: u32,
    pub offset: u128,
    pub title: Option<Seq<char>>,
    pub content_rating: Seq<Rating>,
    pub order: Option<ListOrder>,
}

impl DeepView for MangaList {
    type V = MangaListView;

    open spec fn deep_view(&self) -> MangaListView {
        MangaListView {
            limit: self.limit,
            offset: self.offset,
            title: self.title.deep_view(),
            content_rating: self.content_rating@,
            order: self.order,
        }
    }
}

/// The number of entries on one page of a listing.
pub const PAGE_SIZE: u32 = 20;

/// What every listing asks to have included with its entries.
pub const INCLUDES: &'static str = "&includes[]=cover_art&includes[]=author&includes[]=artist";

/// The question that asks for everything, ten entries from the beginning.
pub open spec fn everything() -> MangaListView {
    MangaListView {
        limit: 10,
        offset: 0,
        title: None,
        content_rating: Seq::empty(),
        order: None,
    }
}

/// The name of a rating in an address.
pub open spec fn rating_name(rating: Rating) -> Seq<char> {
    match rating {
        Rating::Safe => "safe"@,
        Rating::Suggestive => "suggestive"@,
        Rating::Erotica => "erotica"@,
        Rating::Pornographic => "pornographic"@,
    }
}

/// The name of a direction in an address.
pub open spec fn order_name(order: Order) -> Seq<char> {
    match order {
        Order::Asc => "asc"@,
        Order::Desc => "desc"@,
    }
}

/// The part of an address that names the ratings, one after the other.
pub open spec fn ratings_text(ratings: Seq<Rating>) -> Seq<char>
    decreases ratings.len(),
{
    if ratings.len() == 0 {
        Seq::empty()
    } else {
        ratings_text(ratings.drop_last()) + "&contentRating[]="@ + rating_name(ratings.last())
    }
}

/// The part of an address that names the ordering.
pub open spec fn order_text(order: Option<ListOrder>) -> Seq<char> {
    match order {
        None => Seq::empty(),
        Some(by) => {
            let followed = match by.followed_count {
                Some(o) => "&order[followedCount]="@ + order_name(o),
                None => Seq::empty(),
            };
            match by.latest_uploaded_chapter {
                Some(o) => followed + "&order[latestUploadedChapter]="@ + order_name(o),
                None => followed,
            }
        },
    }
}

/// The question as the address writes it.
pub open spec fn query_string(query: MangaListView) -> Seq<char> {
    let paging = "limit="@ + decimal_text(query.limit as nat) + "&offset="@ + decimal_text(
        query.offset as nat,
    );
    let title = match query.title {
        Some(t) => paging + "&title="@ + t,
        None => paging,
    };
    title + ratings_text(query.content_rating) + order_text(query.order) + INCLUDES@
}

impl Rating {
    /// The name of the rating in an address.
    pub fn name(&self) -> (out: &'static str)
        ensures
            out@ == rating_name(*self),
    {
        match self {
            Rating::Safe => "safe",
            Rating::Suggestive => "suggestive",
            Rating::Erotica => "erotica",
            Rating::Pornographic => "pornographic",
        }
    }
}

impl Order {
    /// The name of the direction in an address.
    pub fn name(&self) -> (out: &'static str)
        ensures
            out@ == order_name(*self),
    {
        match self {
            Order::Asc => "asc",
            Order::Desc => "desc",
        }
    }
}

impl Default for MangaList {
    fn default() -> (out: MangaList)
        ensures
            out.deep_view() == everything(),
    {
        MangaList { limit: 10, offset: 0, title: None, content_rating: Vec::new(), order: None }
    }
}

impl MangaList {
    /// The question as the address writes it.
    pub fn to_query_string(&self) -> (out: String)
        ensures
            out@ == query_string(self.deep_view()),
    {
        let mut out = "limit=".to_owned();
        out.append(decimal(self.limit as u128).as_str());
        out.append("&offset=");
        out.append(decimal(self.offset).as_str());
        match &self.title {
            Some(t) => {
                out.append("&title=");
                out.append(t.as_str());
            },
            None => {},
        }
        let ghost before = out@;
        let mut i: usize = 0;
        proof {
            assert(self.content_rating@.take(0) =~= Seq::empty());
            assert(before + Seq::<char>::empty() =~= before);
        }
        while i < self.content_rating.len()
            invariant
                0 <= i <= self.content_rating.len(),
                out@ == before + ratings_text(self.content_rating@.take(i as int)),
            decreases self.content_rating.len() - i,
        {
            proof {
                let now = self.content_rating@.take(i as int + 1);
                assert(now.drop_last() =~= self.content_rating@.take(i as int));
                assert(before + ratings_text(now) =~= before + ratings_text(now.drop_last())
                    + "&contentRating[]="@ + rating_name(now.last()));
            }
            out.append("&contentRating[]=");
            out.append(self.content_rating[i].name());
            i += 1;
        }
        proof {
            assert(self.content_rating@.take(self.content_rating.len() as int)
                =~= self.content_rating@);
        }
        match self.order {
            Some(by) => {
                match by.followed_count {
                    Some(o) => {
                        out.append("&order[followedCount]=");
                        out.append(o.name());
                    },
                    None => {
                        proof {
                            assert(out@ + Seq::<char>::empty() =~= out@);
                        }
                    },
                }
                match by.latest_uploaded_chapter {
                    Some(o) => {
                        out.append("&order[latestUploadedChapter]=");
                        out.append(o.name());
                    },
                    None => {},
                }
            },
            None => {
                proof {
                    assert(out@ + Seq::<char>::empty() =~= out@);
                }
            },
        }
        out.append(INCLUDES);
        proof {
            assert(out@ =~= query_string(self.deep_view()));
        }
        out
    }
}

} // verus!
