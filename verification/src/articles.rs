use vstd::prelude::*;
use vstd::string::StringExecFns;

verus! {

/// One scraped news article. The fields are the texts and links pulled out
/// of the page; `image_link` alone may be empty.
#[derive(Debug, PartialEq, Eq)]
pub struct Article {
    pub title: String,
    pub link: String,
    pub time: String,
    pub author: String,
    pub sourcelink: String,
    pub sourcename: String,
    pub image_link: String,
}

impl Clone for Article {
    fn clone(&self) -> (r: Self)
        ensures
            r == *self,
    {
        Article {
            title: self.title.clone(),
            link: self.link.clone(),
            time: self.time.clone(),
            author: self.author.clone(),
            sourcelink: self.sourcelink.clone(),
            sourcename: self.sourcename.clone(),
            image_link: self.image_link.clone(),
        }
    }
}

/// An article worth keeping: every field but the image is present.
pub open spec fn article_complete(a: Article) -> bool {
    &&& a.title@.len() > 0
    &&& a.link@.len() > 0
    &&& a.time@.len() > 0
    &&& a.author@.len() > 0
    &&& a.sourcelink@.len() > 0
    &&& a.sourcename@.len() > 0
}

/// The complete articles of a scrape, in their original order.
pub open spec fn complete_articles(s: Seq<Article>) -> Seq<Article>
    decreases s.len(),
{
    if s.len() == 0 {
        Seq::empty()
    } else {
        let rest = complete_articles(s.drop_last());
        if article_complete(s.last()) {
            rest.push(s.last())
        } else {
            rest
        }
    }
}

fn article_is_complete(a: &Article) -> (r: bool)
    ensures
        r == article_complete(*a),
{
    a.title.as_str().unicode_len() > 0 && a.link.as_str().unicode_len() > 0
        && a.time.as_str().unicode_len() > 0 && a.author.as_str().unicode_len() > 0
        && a.sourcelink.as_str().unicode_len() > 0 && a.sourcename.as_str().unicode_len() > 0
}

/// Keeps the complete articles of a scrape, at most the first ten of them,
/// and reports an error when none remain.
pub fn select_articles(found: Vec<Article>) -> (r: Result<Vec<Article>, String>)
    ensures
        complete_articles(found@).len() == 0 ==> (r matches Err(m) && m@
            == "No articles found"@),
        complete_articles(found@).len() > 0 ==> (r matches Ok(v) && v@ == (
        if complete_articles(found@).len() > 10 {
            complete_articles(found@).take(10)
        } else {
            complete_articles(found@)
        })),
{
    let mut kept: Vec<Article> = Vec::new();
    let mut i: usize = 0;
    while i < found.len()
        invariant
            i <= found@.len(),
            kept@ == complete_articles(found@.take(i as int)),
        decreases found@.len() - i,
    {
        proof {
            assert(found@.take(i + 1).drop_last() =~= found@.take(i as int));
            assert(found@.take(i + 1).last() == found@[i as int]);
        }
        if article_is_complete(&found[i]) {
            kept.push(found[i].clone());
        }
        i += 1;
    }
    proof {
        assert(found@.take(found@.len() as int) =~= found@);
    }
    if kept.len() > 10 {
        kept.truncate(10);
    }
    if kept.len() == 0 {
        Err(String::from_str("No articles found"))
    } else {
        Ok(kept)
    }
}

} // verus!
