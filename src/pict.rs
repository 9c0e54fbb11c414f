//! The picture catalog: the pictures of a directory with their names, and the
//! order in which they are shown.
use crate::text::same_text;
use vstd::prelude::*;

verus! {

/// A picture of the catalog: its file name, its names, and its tags.
pub struct Pict {
    pub id: String,
    pub ja: String,
    pub romaji: String,
    pub en: String,
    pub tags: Vec<String>,
}

/// The catalog of a picture directory: the pictures to show and the title pictures.
pub struct PictManager {
    pict_dir: String,
    picts: Vec<Pict>,
    titles: Vec<Pict>,
}

/// The path that `std::path::Path::join` gives on Unix for `name` under
/// `dir`: an absolute `name` replaces `dir`; otherwise a `/` separates the
/// two, unless `dir` is empty or already ends in one.
pub open spec fn joined_path(dir: Seq<char>, name: Seq<char>) -> Seq<char> {
    if name.len() > 0 && name[0] == '/' {
        name
    } else if dir.len() == 0 || dir.last() == '/' {
        dir + name
    } else {
        dir + seq!['/'] + name
    }
}

/// Relies on `std::path::Path::join` (through `PathBuf::push`): on Unix an
/// absolute `name` replaces `dir`, and otherwise a separator is added where
/// `dir` does not end in one. Both are UTF-8, so the joined path is too.
#[verifier::external_body]
fn join_path(dir: &str, name: &str) -> (r: String)
    ensures
        r@ == joined_path(dir@, name@),
{
    String::from(std::path::Path::new(dir).join(name).to_str().unwrap())
}

/// The indices `0, 1, …, array_size - 1` over and over, `series_size` of them
/// but at least one.
pub open spec fn index_cycle(array_size: nat, series_size: nat) -> Seq<usize> {
    Seq::new(
        if series_size == 0 {
            1
        } else {
            series_size
        },
        |i: int| (i % array_size as int) as usize,
    )
}

/// The indices `0, 1, …, array_size - 1` over and over until there are
/// `series_size` of them; one at least, as the first is taken before the count
/// is checked.
pub fn generate_index_series(array_size: usize, series_size: usize) -> (r: Vec<usize>)
    requires
        array_size > 0,
    ensures
        r@ == index_cycle(array_size as nat, series_size as nat),
{
    let n: usize = if series_size == 0 {
        1
    } else {
        series_size
    };
    let mut index_series: Vec<usize> = Vec::new();
    let mut i: usize = 0;
    while index_series.len() < n
        invariant
            array_size > 0,
            i < array_size,
            index_series@.len() <= n,
            i as int == index_series@.len() as int % array_size as int,
            forall|j: int| 0 <= j < index_series@.len() ==> #[trigger] index_series@[j] == (j % array_size as int) as usize,
        decreases n - index_series@.len(),
    {
        proof {
            let k = index_series@.len() as int;
            let d = array_size as int;
            let q = k / d;
            vstd::arithmetic::div_mod::lemma_fundamental_div_mod(k, d);
            if i + 1 < array_size {
                vstd::arithmetic::div_mod::lemma_fundamental_div_mod_converse(k + 1, d, q, i + 1);
            } else {
                assert(k + 1 == (q + 1) * d + 0) by (nonlinear_arith)
                    requires
                        k == d * q + i,
                        i + 1 == d,
                ;
                vstd::arithmetic::div_mod::lemma_fundamental_div_mod_converse(k + 1, d, q + 1, 0);
            }
        }
        index_series.push(i);
        i = if i + 1 == array_size {
            0
        } else {
            i + 1
        };
    }
    assert(index_series@ =~= index_cycle(array_size as nat, series_size as nat));
    index_series
}

impl PictManager {
    pub closed spec fn spec_dir(&self) -> Seq<char> {
        self.pict_dir@
    }

    pub closed spec fn spec_picts(&self) -> Seq<Pict> {
        self.picts@
    }

    pub closed spec fn spec_titles(&self) -> Seq<Pict> {
        self.titles@
    }

    /// The catalog of `pict_dir`, with its pictures and title pictures as read
    /// from its index.
    pub fn from_info(pict_dir: &str, picts: Vec<Pict>, titles: Vec<Pict>) -> (r: Self)
        ensures
            r.spec_dir() == pict_dir@,
            r.spec_picts() == picts@,
            r.spec_titles() == titles@,
    {
        PictManager { pict_dir: String::from_str(pict_dir), picts, titles }
    }

    /// The order to show `size` pictures in (at least one): the catalog's
    /// indices over and over, last to first.
    pub fn index_series(&self, size: usize) -> (r: Vec<usize>)
        requires
            self.spec_picts().len() > 0,
        ensures
            r@ == index_cycle(self.spec_picts().len(), size as nat).reverse(),
    {
        let series = generate_index_series(self.picts.len(), size);
        let mut r: Vec<usize> = Vec::new();
        let mut k: usize = series.len();
        while k > 0
            invariant
                k <= series@.len(),
                r@.len() == series@.len() - k,
                forall|j: int| 0 <= j < r@.len() ==> #[trigger] r@[j] == series@[series@.len() - 1 - j],
            decreases k,
        {
            k = k - 1;
            r.push(series[k]);
        }
        assert(r@ =~= series@.reverse());
        r
    }

    /// The picture at `index`, if there is one.
    pub fn get_pict(&self, index: usize) -> (r: Option<&Pict>)
        ensures
            index < self.spec_picts().len() ==> r == Some(&self.spec_picts()[index as int]),
            index >= self.spec_picts().len() ==> r is None,
    {
        if index < self.picts.len() {
            Some(&self.picts[index])
        } else {
            None
        }
    }

    /// The first title picture whose file name is `id`, if there is one.
    pub fn get_title_by_id(&self, id: &str) -> (r: Option<&Pict>)
        ensures
            match r {
                Some(p) => exists|i: int|
                    0 <= i < self.spec_titles().len() && *p == #[trigger] self.spec_titles()[i]
                        && self.spec_titles()[i].id@ == id@ && forall|j: int|
                        0 <= j < i ==> self.spec_titles()[j].id@ != id@,
                None => forall|i: int| 0 <= i < self.spec_titles().len() ==> #[trigger] self.spec_titles()[i].id@ != id@,
            },
    {
        let mut i: usize = 0;
        while i < self.titles.len()
            invariant
                i <= self.titles@.len(),
                forall|j: int| 0 <= j < i ==> #[trigger] self.titles@[j].id@ != id@,
            decreases self.titles@.len() - i,
        {
            if same_text(self.titles[i].id.as_str(), id) {
                assert(self.spec_titles()[i as int].id@ == id@);
                return Some(&self.titles[i]);
            }
            i = i + 1;
        }
        None
    }

    /// The path of `pict`'s file in the catalog's directory.
    pub fn get_pict_path(&self, pict: &Pict) -> (r: String)
        ensures
            r@ == joined_path(self.spec_dir(), pict.id@),
    {
        join_path(self.pict_dir.as_str(), pict.id.as_str())
    }

    /// How many pictures there are to show.
    pub fn get_pict_len(&self) -> (r: usize)
        ensures
            r == self.spec_picts().len(),
    {
        self.picts.len()
    }
}

} // verus!
