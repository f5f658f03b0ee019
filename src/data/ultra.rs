//! Reference data of the ultra edition: its level ids, their display
//! names, and the levels of each chapter.
use vstd::prelude::*;

use crate::data::tables::{
    decode_list_map, decode_string_list, decode_string_map, find_name, has_name, lemma_listed_names,
    list_map_of, lists_lists, lists_names, string_list_of, string_map_of, texts,
};
use crate::text::str_eq;

verus! {

/// The chapters of the ultra edition.
#[derive(Debug, Clone, Copy, PartialEq, Eq, Structural, Hash)]
pub enum Chapter {
    /// `Chapter 1`
    Chapter1,
    /// `Chapter 2`
    Chapter2,
    /// `Chapter 3`
    Chapter3,
    /// `Chapter 4`
    Chapter4,
    /// `Chapter 5`
    Chapter5,
    /// `Chapter 6`
    Chapter6,
    /// `Bonus 1`
    Bonus1,
    /// `Bonus 2`
    Bonus2,
    /// `Bonus 3`
    Bonus3,
    /// `Bonus 4`
    Bonus4,
}

/// The label of a chapter, as the chapter table keys it.
pub open spec fn chapter_label(c: Chapter) -> Seq<char> {
    match c {
        Chapter::Chapter1 => "Chapter 1"@,
        Chapter::Chapter2 => "Chapter 2"@,
        Chapter::Chapter3 => "Chapter 3"@,
        Chapter::Chapter4 => "Chapter 4"@,
        Chapter::Chapter5 => "Chapter 5"@,
        Chapter::Chapter6 => "Chapter 6"@,
        Chapter::Bonus1 => "Bonus 1"@,
        Chapter::Bonus2 => "Bonus 2"@,
        Chapter::Bonus3 => "Bonus 3"@,
        Chapter::Bonus4 => "Bonus 4"@,
    }
}

/// The chapter that a label names, if any.
pub open spec fn chapter_of_label(label: Seq<char>) -> Option<Chapter> {
    if label == "Chapter 1"@ {
        Some(Chapter::Chapter1)
    } else if label == "Chapter 2"@ {
        Some(Chapter::Chapter2)
    } else if label == "Chapter 3"@ {
        Some(Chapter::Chapter3)
    } else if label == "Chapter 4"@ {
        Some(Chapter::Chapter4)
    } else if label == "Chapter 5"@ {
        Some(Chapter::Chapter5)
    } else if label == "Chapter 6"@ {
        Some(Chapter::Chapter6)
    } else if label == "Bonus 1"@ {
        Some(Chapter::Bonus1)
    } else if label == "Bonus 2"@ {
        Some(Chapter::Bonus2)
    } else if label == "Bonus 3"@ {
        Some(Chapter::Bonus3)
    } else if label == "Bonus 4"@ {
        Some(Chapter::Bonus4)
    } else {
        None
    }
}

/// The chapters that every chapter table of this edition holds: its first and last chapter, and its first and last bonus chapter.
pub open spec fn required_chapters() -> Seq<Chapter> {
    seq![Chapter::Chapter1, Chapter::Chapter6, Chapter::Bonus1, Chapter::Bonus4]
}

/// Whether `chapters` holds an entry for the chapter `c`.
pub open spec fn has_chapter(chapters: Seq<(Chapter, Vec<String>)>, c: Chapter) -> bool {
    exists|j: int| 0 <= j < chapters.len() && #[trigger] chapters[j].0 == c
}

/// Whether every level id has a display name.
pub open spec fn all_named(levels: Seq<String>, names: Seq<(String, String)>) -> bool {
    forall|i: int| 0 <= i < levels.len() ==> has_name(names, #[trigger] levels[i]@)
}

/// Whether every required chapter has an entry.
pub open spec fn all_chapters(chapters: Seq<(Chapter, Vec<String>)>) -> bool {
    forall|k: int| 0 <= k < required_chapters().len() ==> has_chapter(chapters, #[trigger] required_chapters()[k])
}

/// Why a set of tables is not valid reference data.
#[derive(Debug, Clone, PartialEq, Eq)]
pub enum DataError {
    /// A level id without a display name
    MissingName(String),
    /// A chapter that the edition always has, without an entry
    MissingChapter(Chapter),
}

impl Chapter {
    /// The chapter's label (`"Chapter 1"`).
    pub fn label(&self) -> (r: &'static str)
        ensures
            r@ == chapter_label(*self),
    {
        match self {
            Chapter::Chapter1 => "Chapter 1",
            Chapter::Chapter2 => "Chapter 2",
            Chapter::Chapter3 => "Chapter 3",
            Chapter::Chapter4 => "Chapter 4",
            Chapter::Chapter5 => "Chapter 5",
            Chapter::Chapter6 => "Chapter 6",
            Chapter::Bonus1 => "Bonus 1",
            Chapter::Bonus2 => "Bonus 2",
            Chapter::Bonus3 => "Bonus 3",
            Chapter::Bonus4 => "Bonus 4",
        }
    }

    /// The chapter that `label` names, if any.
    pub fn from_label(label: &str) -> (r: Option<Chapter>)
        ensures
            r == chapter_of_label(label@),
    {
        if str_eq(label, "Chapter 1") {
            Some(Chapter::Chapter1)
        } else if str_eq(label, "Chapter 2") {
            Some(Chapter::Chapter2)
        } else if str_eq(label, "Chapter 3") {
            Some(Chapter::Chapter3)
        } else if str_eq(label, "Chapter 4") {
            Some(Chapter::Chapter4)
        } else if str_eq(label, "Chapter 5") {
            Some(Chapter::Chapter5)
        } else if str_eq(label, "Chapter 6") {
            Some(Chapter::Chapter6)
        } else if str_eq(label, "Bonus 1") {
            Some(Chapter::Bonus1)
        } else if str_eq(label, "Bonus 2") {
            Some(Chapter::Bonus2)
        } else if str_eq(label, "Bonus 3") {
            Some(Chapter::Bonus3)
        } else if str_eq(label, "Bonus 4") {
            Some(Chapter::Bonus4)
        } else {
            None
        }
    }
}

/// Each chapter's label names that chapter, and only a chapter's own label
/// names it.
pub proof fn lemma_label_names_chapter(c: Chapter, label: Seq<char>)
    ensures
        chapter_of_label(chapter_label(c)) == Some(c),
        chapter_of_label(label) == Some(c) ==> label == chapter_label(c),
{
    reveal_strlit("Chapter 1");
    reveal_strlit("Chapter 2");
    reveal_strlit("Chapter 3");
    reveal_strlit("Chapter 4");
    reveal_strlit("Chapter 5");
    reveal_strlit("Chapter 6");
    reveal_strlit("Bonus 1");
    reveal_strlit("Bonus 2");
    reveal_strlit("Bonus 3");
    reveal_strlit("Bonus 4");
    assert("Chapter 1"@.len() == 9);
    assert("Chapter 1"@[8] == '1');
    assert("Chapter 2"@.len() == 9);
    assert("Chapter 2"@[8] == '2');
    assert("Chapter 3"@.len() == 9);
    assert("Chapter 3"@[8] == '3');
    assert("Chapter 4"@.len() == 9);
    assert("Chapter 4"@[8] == '4');
    assert("Chapter 5"@.len() == 9);
    assert("Chapter 5"@[8] == '5');
    assert("Chapter 6"@.len() == 9);
    assert("Chapter 6"@[8] == '6');
    assert("Bonus 1"@.len() == 7);
    assert("Bonus 1"@[6] == '1');
    assert("Bonus 2"@.len() == 7);
    assert("Bonus 2"@[6] == '2');
    assert("Bonus 3"@.len() == 7);
    assert("Bonus 3"@[6] == '3');
    assert("Bonus 4"@.len() == 7);
    assert("Bonus 4"@[6] == '4');
    match c {
        Chapter::Bonus4 => {},
        Chapter::Chapter1 => {},
        Chapter::Chapter2 => {},
        Chapter::Chapter3 => {},
        Chapter::Chapter4 => {},
        Chapter::Chapter5 => {},
        Chapter::Chapter6 => {},
        Chapter::Bonus1 => {},
        Chapter::Bonus2 => {},
        Chapter::Bonus3 => {},
    }
}

/// Whether `table` holds, in the same order, the entries of `raw` with each
/// label turned into its chapter.
pub open spec fn labelled(table: Seq<(Chapter, Vec<String>)>, raw: Seq<(String, Vec<String>)>) -> bool {
    &&& table.len() == raw.len()
    &&& forall|i: int| 0 <= i < raw.len() ==> chapter_of_label(#[trigger] raw[i].0@) == Some(table[i].0)
        && table[i].1 == raw[i].1
}

/// Why the reference documents could not be loaded.
#[derive(Debug)]
pub enum LoadError {
    /// A document is not JSON of the expected shape
    Json(serde_json::Error),
    /// The chapter document names a chapter that this edition does not have
    UnknownChapter(String),
    /// The decoded tables do not agree
    Invalid(DataError),
}

/// Turns the labels of the chapter document into chapters; the first label that
/// names no chapter is the error.
fn label_chapters(raw: Vec<(String, Vec<String>)>) -> (r: Result<Vec<(Chapter, Vec<String>)>, String>)
    ensures
        r matches Ok(t) ==> labelled(t@, raw@),
        r matches Err(bad) ==> exists|i: int|
            0 <= i < raw@.len() && (#[trigger] raw@[i]).0 == bad && chapter_of_label(bad@) is None,
{
    let ghost orig = raw@;
    let mut rest = raw;
    let mut table: Vec<(Chapter, Vec<String>)> = Vec::new();
    while rest.len() > 0
        invariant
            orig == raw@,
            table@.len() + rest@.len() == orig.len(),
            rest@ == orig.subrange(table@.len() as int, orig.len() as int),
            labelled(table@, orig.subrange(0, table@.len() as int)),
        decreases rest@.len(),
    {
        let ghost i = table@.len() as int;
        let (label, ids) = rest.remove(0);
        assert(orig[i] == (label, ids));
        match Chapter::from_label(label.as_str()) {
            Some(c) => {
                table.push((c, ids));
                assert(orig.subrange(0, i + 1).drop_last() =~= orig.subrange(0, i));
                assert(rest@ =~= orig.subrange(i + 1, orig.len() as int));
            },
            None => {
                assert(orig[i].0 == label);
                return Err(label);
            },
        }
    }
    assert(orig.subrange(0, orig.len() as int) =~= orig);
    Ok(table)
}

/// Whether the chapter table `table` holds the entries of `cm`, a map from
/// chapter label to level ids, and nothing else.
pub open spec fn lists_chapters(table: Seq<(Chapter, Vec<String>)>, cm: Map<Seq<char>, Seq<Seq<char>>>) -> bool {
    &&& forall|i: int| 0 <= i < table.len() ==> #[trigger] cm.contains_key(chapter_label(table[i].0))
        && cm[chapter_label(table[i].0)] == texts(table[i].1@)
    &&& forall|k: Seq<char>| #[trigger] cm.contains_key(k) ==> exists|i: int|
        0 <= i < table.len() && chapter_label(#[trigger] table[i].0) == k
}

/// Whether the three reference documents decode into tables that agree: every
/// chapter label names a chapter of this edition, every level id has a name,
/// and every required chapter has an entry.
pub open spec fn loadable(levels: Seq<u8>, names: Seq<u8>, chapters: Seq<u8>) -> bool {
    &&& string_list_of(levels) matches Some(ls)
    &&& string_map_of(names) matches Some(m)
    &&& list_map_of(chapters) matches Some(cm)
    &&& forall|k: Seq<char>| #[trigger] cm.contains_key(k) ==> chapter_of_label(k) is Some
    &&& forall|i: int| 0 <= i < ls.len() ==> m.contains_key(#[trigger] ls[i])
    &&& forall|k: int| 0 <= k < required_chapters().len() ==> cm.contains_key(
        chapter_label(#[trigger] required_chapters()[k]),
    )
}

/// Whether `d` holds what the three documents decode to.
pub open spec fn loaded_from(d: Data, levels: Seq<u8>, names: Seq<u8>, chapters: Seq<u8>) -> bool {
    &&& d.wf()
    &&& string_list_of(levels) == Some(texts(d.level_ids()))
    &&& string_map_of(names) matches Some(m)
    &&& lists_names(d.name_table(), m)
    &&& list_map_of(chapters) matches Some(cm)
    &&& lists_chapters(d.chapter_table(), cm)
}

/// Whether the chapter document decodes and has the key `label`, which names no
/// chapter of this edition.
pub open spec fn unknown_label(chapters: Seq<u8>, label: Seq<char>) -> bool {
    &&& list_map_of(chapters) matches Some(cm)
    &&& cm.contains_key(label)
    &&& chapter_of_label(label) is None
}

/// Whether the level document decodes and lists `id`, and the name document
/// decodes and has no name for it.
pub open spec fn name_missing(levels: Seq<u8>, names: Seq<u8>, id: Seq<char>) -> bool {
    &&& string_list_of(levels) matches Some(ls)
    &&& ls.contains(id)
    &&& string_map_of(names) matches Some(m)
    &&& !m.contains_key(id)
}

/// Whether the chapter document decodes and lacks the required chapter `c`.
pub open spec fn chapter_missing(chapters: Seq<u8>, c: Chapter) -> bool {
    &&& list_map_of(chapters) matches Some(cm)
    &&& required_chapters().contains(c)
    &&& !cm.contains_key(chapter_label(c))
}

/// How the decoded documents relate to the tables built from them.
proof fn lemma_tables_agree(
    levels: Seq<String>,
    names: Seq<(String, String)>,
    m: Map<Seq<char>, Seq<char>>,
    raw: Seq<(String, Vec<String>)>,
    cm: Map<Seq<char>, Seq<Seq<char>>>,
    table: Seq<(Chapter, Vec<String>)>,
)
    requires
        lists_names(names, m),
        lists_lists(raw, cm),
        labelled(table, raw),
    ensures
        all_named(levels, names) <==> forall|i: int| 0 <= i < levels.len() ==> m.contains_key(#[trigger] levels[i]@),
        all_chapters(table) <==> forall|k: int| 0 <= k < required_chapters().len() ==> cm.contains_key(
            chapter_label(#[trigger] required_chapters()[k]),
        ),
        forall|k: Seq<char>| #[trigger] cm.contains_key(k) ==> chapter_of_label(k) is Some,
        forall|c: Chapter| #[trigger] has_chapter(table, c) <==> cm.contains_key(chapter_label(c)),
        lists_chapters(table, cm),
{
    let w = raw.map_values(|p: (String, Vec<String>)| (p.0, texts(p.1@)));
    assert forall|i: int| 0 <= i < levels.len() implies has_name(names, levels[i]@) <==> m.contains_key(levels[i]@) by {
        lemma_listed_names(names, m, levels[i]@);
    }
    assert forall|c: Chapter| has_chapter(table, c) <==> cm.contains_key(chapter_label(c)) by {
        lemma_label_names_chapter(c, chapter_label(c));
        if has_chapter(table, c) {
            let j = choose|j: int| 0 <= j < table.len() && #[trigger] table[j].0 == c;
            lemma_label_names_chapter(c, raw[j].0@);
            assert(w[j].0@ == raw[j].0@);
        }
        if cm.contains_key(chapter_label(c)) {
            let i = choose|i: int| 0 <= i < w.len() && #[trigger] w[i].0@ == chapter_label(c);
            assert(raw[i].0@ == chapter_label(c));
            assert(table[i].0 == c);
        }
    }
    assert forall|k: Seq<char>| #[trigger] cm.contains_key(k) implies chapter_of_label(k) is Some by {
        let i = choose|i: int| 0 <= i < w.len() && #[trigger] w[i].0@ == k;
        assert(raw[i].0@ == k);
    }
    assert forall|i: int| 0 <= i < table.len() implies #[trigger] cm.contains_key(chapter_label(table[i].0))
        && cm[chapter_label(table[i].0)] == texts(table[i].1@) by {
        lemma_label_names_chapter(table[i].0, raw[i].0@);
        assert(w[i].0@ == raw[i].0@);
    }
    assert forall|k: Seq<char>| #[trigger] cm.contains_key(k) implies exists|i: int|
        0 <= i < table.len() && chapter_label(#[trigger] table[i].0) == k by {
        let i = choose|i: int| 0 <= i < w.len() && #[trigger] w[i].0@ == k;
        assert(raw[i].0@ == k);
        lemma_label_names_chapter(table[i].0, raw[i].0@);
        assert(chapter_label(table[i].0) == k);
    }
}

/// The reference data of this edition: the level ids in their canonical order,
/// a display name for each, and the levels of each chapter.
///
/// Every level id has a display name, and the chapter table holds every
/// chapter of [`required_chapters`].
#[derive(Debug, Clone)]
pub struct Data {
    levels: Vec<String>,
    names: Vec<(String, String)>,
    chapters: Vec<(Chapter, Vec<String>)>,
}

/// Where `chapters` holds the entry of `c`, if it does.
fn find_chapter(chapters: &Vec<(Chapter, Vec<String>)>, c: Chapter) -> (r: Option<usize>)
    ensures
        match r {
            Some(j) => j < chapters@.len() && chapters@[j as int].0 == c,
            None => !has_chapter(chapters@, c),
        },
{
    let mut j: usize = 0;
    while j < chapters.len()
        invariant
            j <= chapters@.len(),
            forall|k: int| 0 <= k < j ==> #[trigger] chapters@[k].0 != c,
        decreases chapters@.len() - j,
    {
        if chapters[j].0 == c {
            return Some(j);
        }
        j = j + 1;
    }
    None
}

impl Data {
    /// The level ids.
    pub closed spec fn level_ids(&self) -> Seq<String> {
        self.levels@
    }

    /// The `(level id, display name)` pairs.
    pub closed spec fn name_table(&self) -> Seq<(String, String)> {
        self.names@
    }

    /// The `(chapter, level ids)` pairs.
    pub closed spec fn chapter_table(&self) -> Seq<(Chapter, Vec<String>)> {
        self.chapters@
    }

    /// Every level id has a display name, and every required chapter an entry.
    pub open spec fn wf(&self) -> bool {
        all_named(self.level_ids(), self.name_table()) && all_chapters(self.chapter_table())
    }

    /// Builds the reference data from its three decoded tables, and checks it:
    /// a level id without a display name gives `MissingName` with the first
    /// such id; otherwise a required chapter without an entry gives
    /// `MissingChapter` with the first such chapter.
    pub fn new(
        levels: Vec<String>,
        names: Vec<(String, String)>,
        chapters: Vec<(Chapter, Vec<String>)>,
    ) -> (r: Result<Data, DataError>)
        ensures
            r is Ok <==> all_named(levels@, names@) && all_chapters(chapters@),
            r matches Ok(d) ==> d.wf() && d.level_ids() == levels@ && d.name_table() == names@
                && d.chapter_table() == chapters@,
            r matches Err(DataError::MissingName(id)) ==> exists|i: int|
                0 <= i < levels@.len() && #[trigger] levels@[i]@ == id@ && !has_name(names@, id@)
                && forall|k: int| 0 <= k < i ==> has_name(names@, #[trigger] levels@[k]@),
            r matches Err(DataError::MissingChapter(c)) ==> all_named(levels@, names@)
                && required_chapters().contains(c) && !has_chapter(chapters@, c),
    {
        let mut i: usize = 0;
        while i < levels.len()
            invariant
                i <= levels@.len(),
                forall|k: int| 0 <= k < i ==> has_name(names@, #[trigger] levels@[k]@),
            decreases levels@.len() - i,
        {
            if find_name(&names, levels[i].as_str()).is_none() {
                return Err(DataError::MissingName(levels[i].clone()));
            }
            i = i + 1;
        }

        if find_chapter(&chapters, Chapter::Chapter1).is_none() {
            proof {
                assert(required_chapters()[0] == Chapter::Chapter1);
            }
            return Err(DataError::MissingChapter(Chapter::Chapter1));
        }
        if find_chapter(&chapters, Chapter::Chapter6).is_none() {
            proof {
                assert(required_chapters()[1] == Chapter::Chapter6);
            }
            return Err(DataError::MissingChapter(Chapter::Chapter6));
        }
        if find_chapter(&chapters, Chapter::Bonus1).is_none() {
            proof {
                assert(required_chapters()[2] == Chapter::Bonus1);
            }
            return Err(DataError::MissingChapter(Chapter::Bonus1));
        }
        if find_chapter(&chapters, Chapter::Bonus4).is_none() {
            proof {
                assert(required_chapters()[3] == Chapter::Bonus4);
            }
            return Err(DataError::MissingChapter(Chapter::Bonus4));
        }
        proof {
            assert(required_chapters().len() == 4);
        }
        Ok(Data { levels, names, chapters })
    }

    /// Loads the reference data from its three JSON documents: the level ids,
    /// the display names by level id, and the level ids by chapter label.
    ///
    /// Succeeds exactly when the documents decode into tables that agree
    /// ([`loadable`]); otherwise reports the first document that does not
    /// decode, a chapter label of another edition, or what [`Data::new`] finds.
    pub fn load(levels: &[u8], names: &[u8], chapters: &[u8]) -> (r: Result<Data, LoadError>)
        ensures
            r is Ok <==> loadable(levels@, names@, chapters@),
            r matches Ok(d) ==> loaded_from(d, levels@, names@, chapters@),
            r matches Err(LoadError::Json(_)) ==> string_list_of(levels@) is None
                || string_map_of(names@) is None || list_map_of(chapters@) is None,
            r matches Err(LoadError::UnknownChapter(label)) ==> unknown_label(chapters@, label@),
            r matches Err(LoadError::Invalid(DataError::MissingName(id))) ==> name_missing(levels@, names@, id@),
            r matches Err(LoadError::Invalid(DataError::MissingChapter(c))) ==> chapter_missing(chapters@, c),
    {
        let level_ids = match decode_string_list(levels) {
            Ok(v) => v,
            Err(e) => return Err(LoadError::Json(e)),
        };
        let name_pairs = match decode_string_map(names) {
            Ok(v) => v,
            Err(e) => return Err(LoadError::Json(e)),
        };
        let raw = match decode_list_map(chapters) {
            Ok(v) => v,
            Err(e) => return Err(LoadError::Json(e)),
        };
        let ghost ls = texts(level_ids@);
        let ghost m = string_map_of(names@)->Some_0;
        let ghost cm = list_map_of(chapters@)->Some_0;
        let ghost raw_pairs = raw@;
        let table = match label_chapters(raw) {
            Ok(t) => t,
            Err(label) => {
                proof {
                    let i = choose|i: int| 0 <= i < raw_pairs.len() && (#[trigger] raw_pairs[i]).0 == label
                        && chapter_of_label(label@) is None;
                    let w = raw_pairs.map_values(|p: (String, Vec<String>)| (p.0, texts(p.1@)));
                    assert(w[i].0@ == label@);
                    assert(cm.contains_key(label@));
                }
                return Err(LoadError::UnknownChapter(label));
            },
        };
        proof {
            lemma_tables_agree(level_ids@, name_pairs@, m, raw_pairs, cm, table@);
            assert forall|i: int| 0 <= i < ls.len() implies ls[i] == level_ids@[i]@ by {}
        }
        match Data::new(level_ids, name_pairs, table) {
            Ok(d) => Ok(d),
            Err(e) => {
                proof {
                    if e is MissingName {
                        let id = e->MissingName_0;
                        let i = choose|i: int| 0 <= i < level_ids@.len() && #[trigger] level_ids@[i]@ == id@
                            && !has_name(name_pairs@, id@)
                            && forall|k: int| 0 <= k < i ==> has_name(name_pairs@, #[trigger] level_ids@[k]@);
                        lemma_listed_names(name_pairs@, m, id@);
                        assert(ls[i] == id@);
                    }
                    if e is MissingChapter {
                        assert(!has_chapter(table@, e->MissingChapter_0));
                    }
                }
                Err(LoadError::Invalid(e))
            },
        }
    }

    /// The level ids, in their canonical order. They carry no `SP_` prefix.
    pub fn levels(&self) -> (r: &Vec<String>)
        ensures
            r@ == self.level_ids(),
    {
        &self.levels
    }

    /// The `(level id, display name)` pairs, one per level id.
    pub fn names(&self) -> (r: &Vec<(String, String)>)
        ensures
            r@ == self.name_table(),
    {
        &self.names
    }

    /// The `(chapter, level ids)` pairs, one per chapter.
    pub fn chapters(&self) -> (r: &Vec<(Chapter, Vec<String>)>)
        ensures
            r@ == self.chapter_table(),
    {
        &self.chapters
    }

    /// The display name of the level `id`, if it has one.
    pub fn name_of(&self, id: &str) -> (r: Option<&String>)
        ensures
            r is Some <==> has_name(self.name_table(), id@),
            r matches Some(n) ==> exists|j: int| 0 <= j < self.name_table().len()
                && #[trigger] self.name_table()[j].0@ == id@ && self.name_table()[j].1 == *n,
    {
        match find_name(&self.names, id) {
            Some(j) => {
                assert(self.name_table()[j as int].0@ == id@);
                Some(&self.names[j].1)
            },
            None => None,
        }
    }

    /// The level ids of chapter `c`, if the table has it.
    pub fn levels_of(&self, c: Chapter) -> (r: Option<&Vec<String>>)
        ensures
            r is Some <==> has_chapter(self.chapter_table(), c),
            r matches Some(v) ==> exists|j: int| 0 <= j < self.chapter_table().len()
                && #[trigger] self.chapter_table()[j].0 == c && self.chapter_table()[j].1 == *v,
    {
        match find_chapter(&self.chapters, c) {
            Some(j) => Some(&self.chapters[j].1),
            None => None,
        }
    }
}

/// In valid reference data every level id has a display name.
pub proof fn lemma_levels_named(d: Data)
    requires
        d.wf(),
    ensures
        forall|i: int| 0 <= i < d.level_ids().len() ==> has_name(d.name_table(), #[trigger] d.level_ids()[i]@),
{
}

/// In valid reference data the chapter table holds its first and last chapter, and its first and last bonus chapter.
pub proof fn lemma_chapters_present(d: Data)
    requires
        d.wf(),
    ensures
        has_chapter(d.chapter_table(), Chapter::Chapter1),
        has_chapter(d.chapter_table(), Chapter::Chapter6),
        has_chapter(d.chapter_table(), Chapter::Bonus1),
        has_chapter(d.chapter_table(), Chapter::Bonus4),
{
    assert(required_chapters().len() == 4);
    assert(required_chapters()[0] == Chapter::Chapter1);
    assert(required_chapters()[1] == Chapter::Chapter6);
    assert(required_chapters()[2] == Chapter::Bonus1);
    assert(required_chapters()[3] == Chapter::Bonus4);
}

} // verus!
