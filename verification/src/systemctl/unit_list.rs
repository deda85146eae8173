//! The unit tool's file listing: one record per listed unit file, read from
//! the captured output of the listing command.

use vstd::prelude::*;
use vstd::string::StrSliceExecFns;

use crate::text::{fields_spec, find_char, find_char_index, lines_spec, split_fields, split_lines,
    str_eq};

verus! {

/// One row of the listing generated by the unit tool's file listing
/// command.
#[derive(Debug, PartialEq)]
pub struct UnitList {
    /// Unit name: `name.type`
    pub unit_file: String,
    /// Unit state
    pub state: String,
    /// Unit vendor preset
    pub vendor_preset: Option<bool>,
}

/// A row's content as plain sequences.
pub open spec fn row_view(u: UnitList) -> (Seq<char>, Seq<char>, Option<bool>) {
    (u.unit_file@, u.state@, u.vendor_preset)
}

/// What the vendor-preset column means: `enabled` and `disabled` are
/// recorded, a dash or anything else means no preset is known.
pub open spec fn preset_spec(f: Seq<char>) -> Option<bool> {
    if f == "enabled"@ {
        Some(true)
    } else if f == "disabled"@ {
        Some(false)
    } else {
        None
    }
}

/// Whether a listing line carries a record: it names a unit file (holds a
/// dot and does not end with one) and has the three columns.
pub open spec fn line_kept(line: Seq<char>) -> bool {
    &&& find_char(line, '.') >= 0
    &&& line.len() > 0 && line.last() != '.'
    &&& fields_spec(line).len() >= 3
}

/// The record a kept line carries: its first three columns.
pub open spec fn row_spec(line: Seq<char>) -> (Seq<char>, Seq<char>, Option<bool>) {
    let fs = fields_spec(line);
    (fs[0], fs[1], preset_spec(fs[2]))
}

/// The records of a whole listing, in order of their lines.
pub open spec fn listing_rows(lines: Seq<Seq<char>>) -> Seq<
    (Seq<char>, Seq<char>, Option<bool>),
>
    decreases lines.len(),
{
    if lines.len() == 0 {
        Seq::empty()
    } else {
        let rest = listing_rows(lines.drop_first());
        if line_kept(lines[0]) {
            seq![row_spec(lines[0])] + rest
        } else {
            rest
        }
    }
}

/// Parses the captured output of the unit tool's file listing into its
/// records. A header or footer line without a dot is passed over, as is a
/// line with fewer than three columns.
pub fn parse_unit_files(content: &str) -> (r: Vec<UnitList>)
    ensures
        r@.map_values(|u: UnitList| row_view(u)) == listing_rows(lines_spec(content@)),
{
    let lines = split_lines(content);
    let ghost all = lines.deep_view();
    let total = lines.len();
    let mut out: Vec<UnitList> = Vec::new();
    let mut idx: usize = 0;
    proof {
        assert(all.skip(0) =~= all);
        assert(out@.map_values(|u: UnitList| row_view(u)) =~= Seq::<
            (Seq<char>, Seq<char>, Option<bool>),
        >::empty());
        assert(out@.map_values(|u: UnitList| row_view(u)) + listing_rows(all) =~= listing_rows(
            all,
        ));
    }
    while idx < total
        invariant
            idx <= total,
            total == lines@.len(),
            all == lines.deep_view(),
            listing_rows(all) == out@.map_values(|u: UnitList| row_view(u)) + listing_rows(
                all.skip(idx as int),
            ),
        decreases total - idx,
    {
        let line = lines[idx].as_str();
        proof {
            assert(all.skip(idx as int)[0] == line@);
            assert(all.skip(idx as int).drop_first() =~= all.skip(idx as int + 1));
        }
        let m = line.unicode_len();
        let has_dot = find_char_index(line, '.').is_some();
        let kept = has_dot && m > 0 && line.get_char(m - 1) != '.';
        if kept {
            let fs = split_fields(line);
            if fs.len() >= 3 {
                let row = UnitList {
                    unit_file: String::from_str(fs[0].as_str()),
                    state: String::from_str(fs[1].as_str()),
                    vendor_preset: if str_eq(fs[2].as_str(), "enabled") {
                        Some(true)
                    } else if str_eq(fs[2].as_str(), "disabled") {
                        Some(false)
                    } else {
                        None
                    },
                };
                let ghost before = out@.map_values(|u: UnitList| row_view(u));
                proof {
                    assert(fs.deep_view()[0] == fields_spec(line@)[0]);
                    assert(fs.deep_view()[1] == fields_spec(line@)[1]);
                    assert(fs.deep_view()[2] == fields_spec(line@)[2]);
                    assert(row_view(row) == row_spec(line@));
                }
                out.push(row);
                proof {
                    assert(out@.map_values(|u: UnitList| row_view(u)) =~= before.push(
                        row_spec(line@),
                    ));
                    assert(before.push(row_spec(line@)) =~= before + seq![row_spec(line@)]);
                }
            } else {
                proof {
                    assert(!line_kept(line@));
                }
            }
        } else {
            proof {
                assert(!line_kept(line@));
            }
        }
        idx += 1;
    }
    proof {
        assert(all.skip(total as int) =~= Seq::<Seq<char>>::empty());
        assert(out@.map_values(|u: UnitList| row_view(u)) + Seq::<
            (Seq<char>, Seq<char>, Option<bool>),
        >::empty() =~= out@.map_values(|u: UnitList| row_view(u)));
    }
    out
}

/// Whether a listing names any unit file at all: this is what decides the
/// existence query, whose listing is filtered to the one unit asked about.
pub fn any_units(list: &Vec<UnitList>) -> (r: bool)
    ensures
        r == (list@.len() > 0),
{
    list.len() > 0
}

/// The unit file names of a listing, in order.
pub fn unit_names(list: &Vec<UnitList>) -> (r: Vec<String>)
    ensures
        r.deep_view() == list@.map_values(|u: UnitList| u.unit_file@),
{
    let mut r: Vec<String> = Vec::new();
    let mut i: usize = 0;
    while i < list.len()
        invariant
            i <= list@.len(),
            r@.len() == i,
            forall|t: int| 0 <= t < i ==> r.deep_view()[t] == list@[t].unit_file@,
        decreases list@.len() - i,
    {
        let ghost before = r.deep_view();
        r.push(String::from_str(list[i].unit_file.as_str()));
        proof {
            assert(r.deep_view() =~= before.push(list@[i as int].unit_file@));
        }
        i += 1;
    }
    proof {
        assert(r.deep_view() =~= list@.map_values(|u: UnitList| u.unit_file@));
    }
    r
}

} // verus!
