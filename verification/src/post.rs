//! The post accumulator and the finished h-entry record.
//!
//! A [`PostBuilder`] collects the header fields one at a time; `build`
//! validates that every required field is present and produces the immutable
//! [`Post`] record, lowercasing the categories on the way.

use vstd::prelude::*;
use crate::text::lower_of;

verus! {

/// Ghost image of a builder: each field as the caller has set it so far.
pub ghost struct BuilderModel {
    pub name: Option<Seq<char>>,
    pub slug: Option<Seq<char>>,
    pub content: Option<Seq<char>>,
    pub published: Option<Seq<char>>,
    pub categories: Option<Seq<Seq<char>>>,
}

/// The builder state in which nothing has been set.
pub open spec fn empty_model() -> BuilderModel {
    BuilderModel {
        name: None,
        slug: None,
        content: None,
        published: None,
        categories: None,
    }
}

/// Whether every required field — title, slug, content and published date —
/// has been set.
pub open spec fn required_present(m: BuilderModel) -> bool {
    m.name is Some && m.slug is Some && m.content is Some && m.published is Some
}

/// The first missing required field, in the fixed check order: title, slug,
/// content, published date.
pub open spec fn missing_name(m: BuilderModel) -> Seq<char> {
    if m.name is None {
        "Title"@
    } else if m.slug is None {
        "Slug"@
    } else if m.content is None {
        "Content"@
    } else {
        "Date"@
    }
}

/// The categories as set, or the empty list when they never were.
pub open spec fn cats_of(m: BuilderModel) -> Seq<Seq<char>> {
    if m.categories is Some {
        m.categories->0
    } else {
        Seq::empty()
    }
}

/// The record that a fully set builder produces: each scalar wrapped in a
/// single-element list, the categories lowercased entry by entry.
pub open spec fn built_model(m: BuilderModel) -> PostModel {
    PostModel {
        post_type: seq!["h-entry"@],
        name: seq![m.name->0],
        slug: seq![m.slug->0],
        content: seq![m.content->0],
        published: seq![m.published->0],
        category: cats_of(m).map_values(|t: Seq<char>| lower_of(t)),
    }
}

/// Ghost image of a record: every property as its list of texts.
pub ghost struct PostModel {
    pub post_type: Seq<Seq<char>>,
    pub name: Seq<Seq<char>>,
    pub slug: Seq<Seq<char>>,
    pub content: Seq<Seq<char>>,
    pub published: Seq<Seq<char>>,
    pub category: Seq<Seq<char>>,
}

/// One content value of a record: the body text, carried as markdown.
#[derive(Debug)]
pub struct PostContent {
    pub markdown: String,
}

/// The property set of an h-entry record. Each scalar property is a list
/// holding one value, following the micro-format convention of multi-valued
/// properties.
#[derive(Debug)]
pub struct PostProperties {
    pub name: Vec<String>,
    pub slug: Vec<String>,
    pub content: Vec<PostContent>,
    pub published: Vec<String>,
    pub category: Vec<String>,
}

/// A finished h-entry record.
#[derive(Debug)]
pub struct Post {
    pub post_type: Vec<String>,
    pub properties: PostProperties,
}

impl View for Post {
    type V = PostModel;

    open spec fn view(&self) -> PostModel {
        PostModel {
            post_type: self.post_type.deep_view(),
            name: self.properties.name.deep_view(),
            slug: self.properties.slug.deep_view(),
            content: self.properties.content@.map_values(|c: PostContent| c.markdown@),
            published: self.properties.published.deep_view(),
            category: self.properties.category.deep_view(),
        }
    }
}

/// Failure of `PostBuilder::build`, naming the first missing required field.
#[derive(Debug)]
pub enum PostError {
    MissingField(String),
}

impl View for PostError {
    type V = Seq<char>;

    /// The name of the missing field.
    open spec fn view(&self) -> Seq<char> {
        match self {
            PostError::MissingField(n) => n@,
        }
    }
}

impl PostError {
    /// The diagnostic line for this error.
    pub fn message(&self) -> (r: String)
        ensures
            r@ == "Field '"@ + self@ + "' is missing. It is a required field to build a Post."@,
    {
        let mut s = "Field '".to_owned();
        match self {
            PostError::MissingField(n) => {
                s.append(n.as_str());
            },
        }
        s.append("' is missing. It is a required field to build a Post.");
        s
    }
}

/// Accumulator for the fields of a post, filled by header parsing and body
/// assignment, and consumed by `build`.
#[derive(Debug)]
pub struct PostBuilder {
    name: Option<String>,
    slug: Option<String>,
    content: Option<String>,
    published: Option<String>,
    categories: Option<Vec<String>>,
}

impl View for PostBuilder {
    type V = BuilderModel;

    closed spec fn view(&self) -> BuilderModel {
        BuilderModel {
            name: self.name.deep_view(),
            slug: self.slug.deep_view(),
            content: self.content.deep_view(),
            published: self.published.deep_view(),
            categories: self.categories.deep_view(),
        }
    }
}

impl PostBuilder {
    /// A builder with no field set.
    pub fn new() -> (b: PostBuilder)
        ensures
            b@ == empty_model(),
    {
        PostBuilder {
            name: None,
            slug: None,
            content: None,
            published: None,
            categories: None,
        }
    }

    /// Sets the title, replacing any earlier value.
    pub fn set_name(&mut self, val: String)
        ensures
            final(self)@ == (BuilderModel { name: Some(val@), ..old(self)@ }),
    {
        self.name = Some(val);
    }

    /// Sets the slug, replacing any earlier value.
    pub fn set_slug(&mut self, val: String)
        ensures
            final(self)@ == (BuilderModel { slug: Some(val@), ..old(self)@ }),
    {
        self.slug = Some(val);
    }

    /// Sets the published date, replacing any earlier value.
    pub fn set_published(&mut self, val: String)
        ensures
            final(self)@ == (BuilderModel { published: Some(val@), ..old(self)@ }),
    {
        self.published = Some(val);
    }

    /// Sets the categories, replacing — not extending — any earlier list.
    pub fn set_categories(&mut self, val: Vec<String>)
        ensures
            final(self)@ == (BuilderModel { categories: Some(val.deep_view()), ..old(self)@ }),
    {
        self.categories = Some(val);
    }

    /// Sets the body text, replacing any earlier value.
    pub fn set_content(&mut self, val: String)
        ensures
            final(self)@ == (BuilderModel { content: Some(val@), ..old(self)@ }),
    {
        self.content = Some(val);
    }

    /// Validates that title, slug, content and published date are present —
    /// reporting only the first missing one, in that fixed order — and
    /// produces the finished record, with each category lowercased. A
    /// categories list that was never set yields an empty `category` list,
    /// not an error.
    pub fn build(self) -> (r: Result<Post, PostError>)
        ensures
            r is Ok <==> required_present(self@),
            r matches Ok(p) ==> p@ == built_model(self@),
            r matches Err(e) ==> e@ == missing_name(self@),
    {
        let PostBuilder { name, slug, content, published, categories } = self;
        let name = match name {
            Some(v) => v,
            None => {
                return Err(PostError::MissingField("Title".to_owned()));
            },
        };
        let slug = match slug {
            Some(v) => v,
            None => {
                return Err(PostError::MissingField("Slug".to_owned()));
            },
        };
        let content = match content {
            Some(v) => v,
            None => {
                return Err(PostError::MissingField("Content".to_owned()));
            },
        };
        let published = match published {
            Some(v) => v,
            None => {
                return Err(PostError::MissingField("Date".to_owned()));
            },
        };
        let category = match categories {
            Some(v) => lower_all(v),
            None => Vec::new(),
        };
        let mut post_type: Vec<String> = Vec::new();
        post_type.push("h-entry".to_owned());
        let mut name_list: Vec<String> = Vec::new();
        name_list.push(name);
        let mut slug_list: Vec<String> = Vec::new();
        slug_list.push(slug);
        let mut content_list: Vec<PostContent> = Vec::new();
        content_list.push(PostContent { markdown: content });
        let mut published_list: Vec<String> = Vec::new();
        published_list.push(published);
        let p = Post {
            post_type,
            properties: PostProperties {
                name: name_list,
                slug: slug_list,
                content: content_list,
                published: published_list,
                category,
            },
        };
        proof {
            assert(p@.post_type =~= built_model(self@).post_type);
            assert(p@.name =~= built_model(self@).name);
            assert(p@.slug =~= built_model(self@).slug);
            assert(p@.content =~= built_model(self@).content);
            assert(p@.published =~= built_model(self@).published);
            assert(p@.category =~= built_model(self@).category);
        }
        Ok(p)
    }
}

/// A copy of `v` with every entry lowercased.
fn lower_all(v: Vec<String>) -> (r: Vec<String>)
    ensures
        r.deep_view() =~= v.deep_view().map_values(|t: Seq<char>| lower_of(t)),
{
    let mut r: Vec<String> = Vec::new();
    let mut i: usize = 0;
    while i < v.len()
        invariant
            0 <= i <= v@.len(),
            r@.len() == i,
            forall|k: int| 0 <= k < i ==> r@[k]@ == lower_of(v@[k]@),
        decreases v@.len() - i,
    {
        let low = crate::text::to_lower(v[i].as_str());
        r.push(low);
        i += 1;
    }
    proof {
        assert(r.deep_view() =~= v.deep_view().map_values(|t: Seq<char>| lower_of(t)));
    }
    r
}

} // verus!
