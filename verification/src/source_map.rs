//! The source-position table of the file under transformation: for each
//! byte offset it knows, the line and the column that the offset falls on.

use vstd::prelude::*;
use crate::ast::BytePos;

verus! {

/// What the table reports for one byte offset.
#[derive(Clone, Copy, PartialEq, Eq, Debug, Structural)]
pub struct Loc {
    /// The byte offset that this entry is about.
    pub pos: BytePos,
    /// The line, counted from 1.
    pub line: u32,
    /// The column as displayed, counted from 0.
    pub col_display: u32,
}

/// The table entry for `pos`: the first one in the list that is about it.
pub open spec fn find_loc(locs: Seq<Loc>, pos: BytePos) -> Option<Loc>
    decreases locs.len(),
{
    if locs.len() == 0 {
        None
    } else if locs[0].pos == pos {
        Some(locs[0])
    } else {
        find_loc(locs.drop_first(), pos)
    }
}

/// The 1-based `(line, column)` of `pos`: the reported line, and the reported
/// column plus one. There is none where the table does not know the offset,
/// or where the column plus one is no `u32`.
pub open spec fn resolve_position(locs: Seq<Loc>, pos: BytePos) -> Option<(u32, u32)> {
    match find_loc(locs, pos) {
        Some(loc) => if loc.col_display < u32::MAX {
            Some((loc.line, (loc.col_display + 1) as u32))
        } else {
            None
        },
        None => None,
    }
}

/// The position table of one file, with the file's raw name.
#[derive(PartialEq, Eq, Debug)]
pub struct SourceMap {
    file_name: String,
    locs: Vec<Loc>,
}

pub ghost struct SourceMapView {
    pub file_name: Seq<char>,
    pub locs: Seq<Loc>,
}

impl View for SourceMap {
    type V = SourceMapView;

    closed spec fn view(&self) -> SourceMapView {
        SourceMapView { file_name: self.file_name@, locs: self.locs@ }
    }
}

impl SourceMap {
    pub fn new(file_name: String, locs: Vec<Loc>) -> (map: SourceMap)
        ensures
            map@.file_name == file_name@,
            map@.locs == locs@,
    {
        SourceMap { file_name, locs }
    }

    /// The raw name of the file, as the host gave it.
    pub fn file_name(&self) -> (name: &str)
        ensures
            name@ == self@.file_name,
    {
        self.file_name.as_str()
    }

    /// What the table reports for `pos`.
    pub fn lookup_char_pos(&self, pos: BytePos) -> (found: Option<Loc>)
        ensures
            found == find_loc(self@.locs, pos),
    {
        let n: usize = self.locs.len();
        let mut i: usize = 0;
        assert(self.locs@.skip(0) =~= self.locs@);
        while i < n
            invariant
                i <= n,
                n == self.locs@.len(),
                find_loc(self.locs@, pos) == find_loc(self.locs@.skip(i as int), pos),
            decreases n - i,
        {
            let loc = self.locs[i];
            assert(self.locs@.skip(i as int)[0] == loc);
            if loc.pos.0 == pos.0 {
                return Some(loc);
            }
            assert(self.locs@.skip(i as int).drop_first() =~= self.locs@.skip(i + 1));
            i = i + 1;
        }
        assert(self.locs@.skip(n as int).len() == 0);
        None
    }

    /// The 1-based line and column of `pos`.
    pub fn resolve(&self, pos: BytePos) -> (at: Option<(u32, u32)>)
        ensures
            at == resolve_position(self@.locs, pos),
    {
        match self.lookup_char_pos(pos) {
            Some(loc) => {
                if loc.col_display < u32::MAX {
                    Some((loc.line, loc.col_display + 1))
                } else {
                    None
                }
            },
            None => None,
        }
    }
}

} // verus!
