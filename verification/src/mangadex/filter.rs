//! The filters of a MangaDex search, and the question they make.

use crate::input::{
    blank_select, blank_text, make_select, make_text, make_values, text_values, views, Input,
    InputView,
};
use crate::mangadex::query::{ListOrder, MangaList, MangaListView, Order, Rating, everything};
use crate::text::same_text;
use vstd::prelude::*;

verus! {

/// The filters a search understands: the title, the ratings to include,
/// and the ordering.
pub open spec fn filters() -> Seq<InputView> {
    seq![
        blank_text("Title"@),
        InputView::MultiSelect {
            name: "Content Rating"@,
            values: text_values(seq!["Safe"@, "Suggestive"@, "Erotica"@, "Pornographic"@]),
            state: Seq::empty(),
        },
        blank_select("Order"@, seq!["Latest Upload"@, "Most Followed"@]),
    ]
}

/// The rating that an index of the rating filter names.
pub open spec fn rating_at(index: i64) -> Option<Rating> {
    if index == 0 {
        Some(Rating::Safe)
    } else if index == 1 {
        Some(Rating::Suggestive)
    } else if index == 2 {
        Some(Rating::Erotica)
    } else if index == 3 {
        Some(Rating::Pornographic)
    } else {
        None
    }
}

/// The ratings that the indices name, in their order; an index that names
/// none is passed over.
pub open spec fn ratings_at(indices: Seq<i64>) -> Seq<Rating>
    decreases indices.len(),
{
    if indices.len() == 0 {
        Seq::empty()
    } else {
        match rating_at(indices.last()) {
            Some(rating) => ratings_at(indices.drop_last()).push(rating),
            None => ratings_at(indices.drop_last()),
        }
    }
}

/// The ordering that an index of the order filter names.
pub open spec fn order_at(index: i64) -> Option<ListOrder> {
    if index == 0 {
        Some(ListOrder { followed_count: None, latest_uploaded_chapter: Some(Order::Desc) })
    } else if index == 1 {
        Some(ListOrder { followed_count: Some(Order::Desc), latest_uploaded_chapter: None })
    } else {
        None
    }
}

/// The question after one filter: the title filter with a state sets the
/// title, the rating filter sets the ratings, the order filter sets the
/// ordering that its state names, or its first while nothing is chosen. A
/// filter of another name, and an order index that names no ordering,
/// change nothing.
pub open spec fn with_filter(query: MangaListView, filter: InputView) -> MangaListView {
    match filter {
        InputView::Text { name, state } => if name == "Title"@ && state is Some {
            MangaListView {
                limit: query.limit,
                offset: query.offset,
                title: state,
                content_rating: query.content_rating,
                order: query.order,
            }
        } else {
            query
        },
        InputView::MultiSelect { name, values, state } => if name == "Content Rating"@ {
            MangaListView {
                limit: query.limit,
                offset: query.offset,
                title: query.title,
                content_rating: ratings_at(state),
                order: query.order,
            }
        } else {
            query
        },
        InputView::Select { name, values, state } => if name == "Order"@ && order_at(
            state.unwrap_or(0),
        ) is Some {
            MangaListView {
                limit: query.limit,
                offset: query.offset,
                title: query.title,
                content_rating: query.content_rating,
                order: order_at(state.unwrap_or(0)),
            }
        } else {
            query
        },
    }
}

/// The question after the filters, one after the other: of two filters on
/// the same matter the later one counts.
pub open spec fn with_filters(query: MangaListView, filters: Seq<InputView>) -> MangaListView
    decreases filters.len(),
{
    if filters.len() == 0 {
        query
    } else {
        with_filter(with_filters(query, filters.drop_last()), filters.last())
    }
}

/// The rating that an index of the rating filter names.
fn pick_rating(index: i64) -> (out: Option<Rating>)
    ensures
        out == rating_at(index),
{
    if index == 0 {
        Some(Rating::Safe)
    } else if index == 1 {
        Some(Rating::Suggestive)
    } else if index == 2 {
        Some(Rating::Erotica)
    } else if index == 3 {
        Some(Rating::Pornographic)
    } else {
        None
    }
}

/// The ratings that the indices name, in their order.
fn pick_ratings(indices: &Vec<i64>) -> (out: Vec<Rating>)
    ensures
        out@ == ratings_at(indices@),
{
    let mut out: Vec<Rating> = Vec::new();
    let mut i: usize = 0;
    proof {
        assert(indices@.take(0) =~= Seq::empty());
    }
    while i < indices.len()
        invariant
            0 <= i <= indices.len(),
            out@ == ratings_at(indices@.take(i as int)),
        decreases indices.len() - i,
    {
        proof {
            assert(indices@.take(i as int + 1).drop_last() =~= indices@.take(i as int));
        }
        match pick_rating(indices[i]) {
            Some(rating) => {
                out.push(rating);
            },
            None => {},
        }
        i += 1;
    }
    proof {
        assert(indices@.take(indices.len() as int) =~= indices@);
    }
    out
}

/// The ordering that an index of the order filter names.
fn pick_order(index: i64) -> (out: Option<ListOrder>)
    ensures
        out == order_at(index),
{
    if index == 0 {
        Some(ListOrder { followed_count: None, latest_uploaded_chapter: Some(Order::Desc) })
    } else if index == 1 {
        Some(ListOrder { followed_count: Some(Order::Desc), latest_uploaded_chapter: None })
    } else {
        None
    }
}

/// The filters a search understands.
pub fn filter_list() -> (out: Vec<Input>)
    ensures
        out.deep_view() == filters(),
{
    let ratings = vec!["Safe", "Suggestive", "Erotica", "Pornographic"];
    let orders = vec!["Latest Upload", "Most Followed"];
    let chosen: Vec<i64> = Vec::new();
    proof {
        assert(views(ratings@) =~= seq!["Safe"@, "Suggestive"@, "Erotica"@, "Pornographic"@]);
        assert(views(orders@) =~= seq!["Latest Upload"@, "Most Followed"@]);
        assert(chosen@ =~= Seq::<i64>::empty());
    }
    let mut out: Vec<Input> = Vec::new();
    out.push(make_text("Title"));
    out.push(
        Input::MultiSelect {
            name: "Content Rating".to_owned(),
            values: make_values(ratings),
            state: chosen,
        },
    );
    out.push(make_select("Order", orders));
    proof {
        assert(out.deep_view() =~= filters());
    }
    out
}

impl MangaList {
    /// Applies one filter to the question.
    pub fn apply_filter(&mut self, filter: &Input)
        ensures
            final(self).deep_view() == with_filter(old(self).deep_view(), filter.deep_view()),
    {
        match filter {
            Input::Text { name, state } => {
                if same_text(name.as_str(), "Title") {
                    match state {
                        Some(title) => {
                            self.title = Some(title.clone());
                        },
                        None => {},
                    }
                }
            },
            Input::MultiSelect { name, values, state } => {
                if same_text(name.as_str(), "Content Rating") {
                    self.content_rating = pick_ratings(state);
                }
            },
            Input::Select { name, values, state } => {
                if same_text(name.as_str(), "Order") {
                    let index = match state {
                        Some(i) => *i,
                        None => 0,
                    };
                    match pick_order(index) {
                        Some(by) => {
                            self.order = Some(by);
                        },
                        None => {},
                    }
                }
            },
        }
    }

    /// The question that the filters of a search make.
    pub fn from_filters(filters: &Vec<Input>) -> (out: MangaList)
        ensures
            out.deep_view() == with_filters(everything(), filters.deep_view()),
    {
        let ghost all = filters.deep_view();
        let mut out = MangaList::default();
        let mut i: usize = 0;
        proof {
            assert(all.take(0) =~= Seq::empty());
        }
        while i < filters.len()
            invariant
                0 <= i <= filters.len(),
                all == filters.deep_view(),
                out.deep_view() == with_filters(everything(), all.take(i as int)),
            decreases filters.len() - i,
        {
            proof {
                assert(all.take(i as int + 1).drop_last() =~= all.take(i as int));
                assert(all.take(i as int + 1).last() == filters@[i as int].deep_view());
            }
            out.apply_filter(&filters[i]);
            i += 1;
        }
        proof {
            assert(all.take(filters.len() as int) =~= all);
        }
        out
    }
}

} // verus!
