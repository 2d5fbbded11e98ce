//! The tag table behind the inference resource, and the post-processing of
//! an inference result: dropping excluded tags, rewriting the word
//! separator, and joining what is left into the one string that is handed
//! to the clipboard.

use crate::text::{push_char, str_eq};
use vstd::prelude::*;

verus! {

/// What csv reading of `bytes` with headers off yields: nothing when a
/// record is malformed, else every record's fields in order.  Fixed bytes
/// always read the same way.
pub uninterp spec fn csv_records_of(bytes: Seq<u8>) -> Option<Seq<Seq<Seq<char>>>>;

/// Relies on csv's `Reader` with `has_headers(false)`: the records depend
/// on the bytes alone; each record is handed out as its fields.
#[verifier::external_body]
fn csv_records(bytes: &[u8]) -> (r: Option<Vec<Vec<String>>>)
    ensures
        match r {
            Some(records) => csv_records_of(bytes@) == Some(records.deep_view()),
            None => csv_records_of(bytes@) is None,
        },
{
    let mut rdr = csv::ReaderBuilder::new().has_headers(false).from_reader(bytes);
    let mut out: Vec<Vec<String>> = Vec::new();
    for record in rdr.records() {
        match record {
            Ok(rec) => out.push(rec.iter().map(str::to_string).collect()),
            Err(_) => return None,
        }
    }
    Some(out)
}

/// The tag table a record list carries: the second field of every record
/// that has one, in order.
pub open spec fn spec_tag_table(records: Seq<Seq<Seq<char>>>) -> Seq<Seq<char>>
    decreases records.len(),
{
    if records.len() == 0 {
        Seq::empty()
    } else {
        let init = spec_tag_table(records.drop_last());
        if records.last().len() >= 2 {
            init + seq![records.last()[1]]
        } else {
            init
        }
    }
}

/// Picks the tag column out of `records`, exactly as [`spec_tag_table`]
/// describes.
pub fn tag_table_from_records(records: &Vec<Vec<String>>) -> (r: Vec<String>)
    ensures
        r.deep_view() == spec_tag_table(records.deep_view()),
{
    let ghost all = records.deep_view();
    let mut r: Vec<String> = Vec::new();
    let mut i: usize = 0;
    while i < records.len()
        invariant
            i <= all.len(),
            all == records.deep_view(),
            r.deep_view() == spec_tag_table(all.subrange(0, i as int)),
        decreases all.len() - i,
    {
        let record = &records[i];
        if record.len() >= 2 {
            r.push(record[1].clone());
        }
        proof {
            assert(all.subrange(0, i + 1).drop_last() =~= all.subrange(0, i as int));
            assert(all.subrange(0, i + 1).last() == all[i as int]);
            assert(r.deep_view() =~= spec_tag_table(all.subrange(0, i + 1)));
        }
        i += 1;
    }
    proof {
        assert(all.subrange(0, all.len() as int) =~= all);
    }
    r
}

/// Why a tag table could not be read.
#[derive(Clone, Copy, PartialEq, Eq, Structural, Debug)]
pub enum TagTableError {
    /// A record of the file is malformed.
    MalformedCsv,
}

/// Reads the tag table out of the bytes of a tag file: the second field of
/// every record that has one.  Fails exactly when the csv reading does.
pub fn parse_tag_table(bytes: &Vec<u8>) -> (r: Result<Vec<String>, TagTableError>)
    ensures
        match r {
            Ok(tags) => csv_records_of(bytes@) matches Some(records) && tags.deep_view()
                == spec_tag_table(records),
            Err(TagTableError::MalformedCsv) => csv_records_of(bytes@) is None,
        },
{
    match csv_records(bytes.as_slice()) {
        Some(records) => Ok(tag_table_from_records(&records)),
        None => Err(TagTableError::MalformedCsv),
    }
}

/// How one character of a tag is rewritten: with `use_underscore` every
/// space becomes an underscore, otherwise every underscore becomes a space.
pub open spec fn spec_rewrite_char(c: char, use_underscore: bool) -> char {
    if use_underscore {
        if c == ' ' {
            '_'
        } else {
            c
        }
    } else {
        if c == '_' {
            ' '
        } else {
            c
        }
    }
}

/// A tag with its separator characters rewritten.
pub open spec fn spec_rewrite(s: Seq<char>, use_underscore: bool) -> Seq<char> {
    s.map_values(|c: char| spec_rewrite_char(c, use_underscore))
}

/// Rewrites one tag, exactly as [`spec_rewrite`] describes.
pub fn rewrite_tag(tag: &str, use_underscore: bool) -> (r: String)
    ensures
        r@ == spec_rewrite(tag@, use_underscore),
{
    let len = tag.unicode_len();
    let mut r = String::new();
    let mut i: usize = 0;
    while i < len
        invariant
            i <= len,
            len == tag@.len(),
            r@ == spec_rewrite(tag@.subrange(0, i as int), use_underscore),
        decreases len - i,
    {
        let c = tag.get_char(i);
        let mapped = if use_underscore {
            if c == ' ' {
                '_'
            } else {
                c
            }
        } else {
            if c == '_' {
                ' '
            } else {
                c
            }
        };
        push_char(&mut r, mapped);
        proof {
            assert(r@ =~= spec_rewrite(tag@.subrange(0, i + 1), use_underscore));
        }
        i += 1;
    }
    proof {
        assert(tag@.subrange(0, tag@.len() as int) =~= tag@);
    }
    r
}

/// Whether `tag` is one of the excluded tags.
pub open spec fn spec_excluded(exclusion: Seq<Seq<char>>, tag: Seq<char>) -> bool {
    exists|i: int| 0 <= i < exclusion.len() && exclusion[i] == tag
}

/// Tests `tag` against the exclusion list, exactly as [`spec_excluded`]
/// describes.
pub fn is_excluded(exclusion: &Vec<String>, tag: &str) -> (r: bool)
    ensures
        r == spec_excluded(exclusion.deep_view(), tag@),
{
    let mut i: usize = 0;
    while i < exclusion.len()
        invariant
            i <= exclusion@.len(),
            forall|j: int| 0 <= j < i ==> exclusion.deep_view()[j] != tag@,
        decreases exclusion@.len() - i,
    {
        if str_eq(exclusion[i].as_str(), tag) {
            proof {
                assert(exclusion.deep_view()[i as int] == tag@);
            }
            return true;
        }
        i += 1;
    }
    false
}

/// The tags that survive the exclusion list, in their given order; a tag is
/// compared before any rewriting.
pub open spec fn spec_kept(tags: Seq<Seq<char>>, exclusion: Seq<Seq<char>>) -> Seq<Seq<char>>
    decreases tags.len(),
{
    if tags.len() == 0 {
        Seq::empty()
    } else {
        let init = spec_kept(tags.drop_last(), exclusion);
        if spec_excluded(exclusion, tags.last()) {
            init
        } else {
            init + seq![tags.last()]
        }
    }
}

/// `parts` joined by `sep`: nothing for no parts, and no leading or
/// trailing separator.
pub open spec fn spec_join(parts: Seq<Seq<char>>, sep: Seq<char>) -> Seq<char>
    decreases parts.len(),
{
    if parts.len() == 0 {
        Seq::empty()
    } else if parts.len() == 1 {
        parts[0]
    } else {
        spec_join(parts.drop_last(), sep) + sep + parts.last()
    }
}

/// The one string handed onward for an inference result: the surviving
/// tags, rewritten, joined by a comma and a space.
pub open spec fn spec_format_tags(
    tags: Seq<Seq<char>>,
    use_underscore: bool,
    exclusion: Seq<Seq<char>>,
) -> Seq<char> {
    spec_join(
        spec_kept(tags, exclusion).map_values(|t: Seq<char>| spec_rewrite(t, use_underscore)),
        ", "@,
    )
}

/// Formats an inference result, exactly as [`spec_format_tags`] describes:
/// excluded tags dropped, separators rewritten, the rest joined by ", ".
pub fn format_tags(tags: &Vec<String>, use_underscore: bool, exclusion: &Vec<String>) -> (r: String)
    ensures
        r@ == spec_format_tags(tags.deep_view(), use_underscore, exclusion.deep_view()),
{
    let ghost all = tags.deep_view();
    let ghost ex = exclusion.deep_view();
    let ghost f = |t: Seq<char>| spec_rewrite(t, use_underscore);
    let mut r = String::new();
    let mut kept: usize = 0;
    let mut i: usize = 0;
    while i < tags.len()
        invariant
            i <= all.len(),
            all == tags.deep_view(),
            ex == exclusion.deep_view(),
            f == (|t: Seq<char>| spec_rewrite(t, use_underscore)),
            kept <= i,
            kept == spec_kept(all.subrange(0, i as int), ex).len(),
            r@ == spec_join(spec_kept(all.subrange(0, i as int), ex).map_values(f), ", "@),
        decreases all.len() - i,
    {
        let ghost prefix = all.subrange(0, i as int);
        let ghost prefix1 = all.subrange(0, i + 1);
        let tag = &tags[i];
        if !is_excluded(exclusion, tag.as_str()) {
            if kept > 0 {
                r.append(", ");
            }
            let rewritten = rewrite_tag(tag.as_str(), use_underscore);
            r.append(rewritten.as_str());
            kept = kept + 1;
            proof {
                reveal_strlit(", ");
                assert(prefix1.drop_last() =~= prefix);
                assert(prefix1.last() == all[i as int]);
                let kept1 = spec_kept(prefix1, ex);
                assert(kept1 =~= spec_kept(prefix, ex) + seq![all[i as int]]);
                assert(kept1.map_values(f).drop_last() =~= spec_kept(prefix, ex).map_values(f));
                assert(kept1.map_values(f).last() == f(all[i as int]));
                if spec_kept(prefix, ex).len() == 0 {
                    assert(r@ =~= spec_join(kept1.map_values(f), ", "@));
                } else {
                    assert(", "@ =~= seq![',', ' ']);
                    assert(r@ =~= spec_join(kept1.map_values(f), ", "@));
                }
            }
        } else {
            proof {
                assert(prefix1.drop_last() =~= prefix);
                assert(prefix1.last() == all[i as int]);
                assert(spec_kept(prefix1, ex) =~= spec_kept(prefix, ex));
            }
        }
        i += 1;
    }
    proof {
        assert(all.subrange(0, all.len() as int) =~= all);
    }
    r
}

/// Formats an inference result under a configuration snapshot: the
/// snapshot's separator choice and exclusion list decide, exactly as
/// [`spec_format_tags`] describes.
pub fn format_tags_with_config(tags: &Vec<String>, config: &crate::config::AppConfig) -> (r:
    String)
    ensures
        r@ == spec_format_tags(tags.deep_view(), config@.use_underscore, config@.exclusion_list),
{
    format_tags(tags, config.use_underscore, &config.exclusion_list)
}

} // verus!
