//! The buffer/cursor engine: an ordered sequence of text lines, a 2D cursor,
//! and the editing mode flag, with the navigation and mutation operations.
//!
//! The engine is pure state: rendering and key input belong to the event
//! loop around the library, which repaints from [`TerminalCursor::write_content`]
//! after every operation.

use vstd::prelude::*;

verus! {

use vstd::std_specs::iter::IteratorSpec;
use crate::dispatch::Action;

/// One step of a repaint: write `text` at the current terminal cursor, then
/// move the terminal cursor to the absolute position (`x`, `y`).
pub struct RenderStep {
    /// The characters to write before the move.
    pub text: Vec<char>,
    /// The column to move the terminal cursor to.
    pub x: usize,
    /// The row to move the terminal cursor to.
    pub y: usize,
}

/// The mathematical model of the engine: the lines, the cursor and the mode.
#[verifier::ext_equal]
pub struct EditorState {
    /// The buffer, line by line, each line a sequence of characters.
    pub lines: Seq<Seq<char>>,
    /// Cursor column, an index into the current line (may equal its length).
    pub col: int,
    /// Cursor row, an index into `lines`.
    pub row: int,
    /// Whether the engine is in editing mode.
    pub editing: bool,
}

/// Clamps a column to the characters of a line of length `len`:
/// the result stays on a character, or on column 0 of an empty line.
pub open spec fn capped(len: int, col: int) -> int {
    if col < len {
        col
    } else if len == 0 {
        0
    } else {
        len - 1
    }
}

impl EditorState {
    /// The buffer invariant: at least one line, the cursor row inside the
    /// buffer, and the cursor column at most one past the current line.
    pub open spec fn wf(self) -> bool {
        &&& self.lines.len() >= 1
        &&& 0 <= self.row < self.lines.len()
        &&& 0 <= self.col <= self.lines[self.row].len()
    }

    /// The stronger bound that navigation maintains: the cursor stands on a
    /// character of the current line, or on column 0 of an empty line.
    pub open spec fn nav_bounded(self) -> bool {
        &&& 0 <= self.row < self.lines.len()
        &&& 0 <= self.col
        &&& (self.col < self.lines[self.row].len() || self.col == 0)
    }

    /// The length of the line the cursor is on.
    pub open spec fn current_line_len(self) -> int {
        self.lines[self.row].len() as int
    }

    /// Moving up `n` rows: the row clamps at 0, and the column is clamped
    /// onto the characters of the line the cursor lands on.
    pub open spec fn move_up_step(self, n: int) -> EditorState {
        let r = if self.row < n {
            0
        } else {
            self.row - n
        };
        EditorState { row: r, col: capped(self.lines[r].len() as int, self.col), ..self }
    }

    /// Moving down `n` rows: the row clamps at the last line, and the column
    /// is clamped onto the characters of the line the cursor lands on.
    pub open spec fn move_down_step(self, n: int) -> EditorState {
        let r = if self.row + n >= self.lines.len() {
            self.lines.len() - 1
        } else {
            self.row + n
        };
        EditorState { row: r, col: capped(self.lines[r].len() as int, self.col), ..self }
    }

    /// Moving left `n` columns: the column clamps at 0.
    pub open spec fn move_left_step(self, n: int) -> EditorState {
        let c = if self.col < n {
            0
        } else {
            self.col - n
        };
        EditorState { col: c, ..self }
    }

    /// Moving right `n` columns: the column clamps at the last character of
    /// the current line (one before its length), or at 0 on an empty line.
    pub open spec fn move_right_step(self, n: int) -> EditorState {
        let len = self.lines[self.row].len() as int;
        let c = if len == 0 {
            0
        } else if self.col + n >= len {
            len - 1
        } else {
            self.col + n
        };
        EditorState { col: c, ..self }
    }

    /// Writing one character at the cursor. A line break splits the current
    /// line at the cursor column: the part before it replaces the current
    /// line, the part after it becomes a new line right below, and the cursor
    /// moves to column 0 of that new line. Any other character is inserted at
    /// the cursor column, which then advances by one.
    pub open spec fn write_char_step(self, c: char) -> EditorState {
        if c == '\n' {
            let left = self.lines[self.row].take(self.col);
            let right = self.lines[self.row].skip(self.col);
            EditorState {
                lines: self.lines.update(self.row, left).insert(self.row + 1, right),
                col: 0,
                row: self.row + 1,
                ..self
            }
        } else {
            EditorState {
                lines: self.lines.update(self.row, self.lines[self.row].insert(self.col, c)),
                col: self.col + 1,
                ..self
            }
        }
    }

    /// Writing a whole sequence of characters, one [`Self::write_char_step`]
    /// after the other.
    pub open spec fn write_chars_step(self, cs: Seq<char>) -> EditorState
        decreases cs.len(),
    {
        if cs.len() == 0 {
            self
        } else {
            self.write_chars_step(cs.drop_last()).write_char_step(cs.last())
        }
    }

    /// Deleting before the cursor. At the very start of the buffer this does
    /// nothing. At column 0 of a later row it joins the current line onto the
    /// end of the previous one and moves the cursor to the seam. Anywhere
    /// else it removes the character before the cursor and steps the column
    /// back by one.
    pub open spec fn delete_char_step(self) -> EditorState {
        if self.col == 0 && self.row == 0 {
            self
        } else if self.col == 0 {
            let merged = self.lines[self.row - 1] + self.lines[self.row];
            EditorState {
                lines: self.lines.update(self.row - 1, merged).remove(self.row),
                col: self.lines[self.row - 1].len() as int,
                row: self.row - 1,
                ..self
            }
        } else {
            EditorState {
                lines: self.lines.update(self.row, self.lines[self.row].remove(self.col - 1)),
                col: self.col - 1,
                ..self
            }
        }
    }
}

/// One navigation command, with its amount.
pub enum MoveCmd {
    /// Move up by the given number of rows.
    Up(nat),
    /// Move down by the given number of rows.
    Down(nat),
    /// Move left by the given number of columns.
    Left(nat),
    /// Move right by the given number of columns.
    Right(nat),
}

impl EditorState {
    /// What one navigation command does to the model.
    pub open spec fn move_step(self, m: MoveCmd) -> EditorState {
        match m {
            MoveCmd::Up(n) => self.move_up_step(n as int),
            MoveCmd::Down(n) => self.move_down_step(n as int),
            MoveCmd::Left(n) => self.move_left_step(n as int),
            MoveCmd::Right(n) => self.move_right_step(n as int),
        }
    }

    /// A whole sequence of navigation commands, applied in order.
    pub open spec fn apply_moves(self, ms: Seq<MoveCmd>) -> EditorState
        decreases ms.len(),
    {
        if ms.len() == 0 {
            self
        } else {
            self.move_step(ms[0]).apply_moves(ms.drop_first())
        }
    }
}

/// One navigation command keeps the cursor on the buffer: the row stays
/// inside the buffer, the column stays on a character of the current line
/// (or at 0 on an empty one), and the buffer itself is untouched.
pub proof fn lemma_move_step_bounded(s: EditorState, m: MoveCmd)
    requires
        s.wf(),
        s.nav_bounded(),
    ensures
        s.move_step(m).wf(),
        s.move_step(m).nav_bounded(),
        s.move_step(m).lines == s.lines,
        s.move_step(m).editing == s.editing,
{
}

/// Law: however many navigation commands run, from a well-formed state with
/// the cursor on a character, the cursor row stays within the buffer and the
/// column within the current line (or at 0 on an empty line), and the buffer
/// content never changes. Navigation alone can never move the cursor out of
/// range.
pub proof fn lemma_moves_stay_bounded(s: EditorState, ms: Seq<MoveCmd>)
    requires
        s.wf(),
        s.nav_bounded(),
    ensures
        s.apply_moves(ms).wf(),
        s.apply_moves(ms).nav_bounded(),
        s.apply_moves(ms).lines == s.lines,
        s.apply_moves(ms).editing == s.editing,
    decreases ms.len(),
{
    if ms.len() > 0 {
        lemma_move_step_bounded(s, ms[0]);
        lemma_moves_stay_bounded(s.move_step(ms[0]), ms.drop_first());
    }
}

/// Law: splitting a line with a line break and deleting right away at the
/// resulting cursor position restores the buffer and the cursor exactly as
/// they were: the split at the cursor and the join at the seam are inverse.
pub proof fn lemma_split_join_round_trip(s: EditorState)
    requires
        s.wf(),
    ensures
        s.write_char_step('\n').delete_char_step() == s,
{
    let t = s.write_char_step('\n');
    assert(t.lines[s.row] == s.lines[s.row].take(s.col));
    assert(t.lines[s.row + 1] == s.lines[s.row].skip(s.col));
    assert(s.lines[s.row].take(s.col) + s.lines[s.row].skip(s.col) =~= s.lines[s.row]);
    let u = t.delete_char_step();
    assert(u.lines =~= s.lines);
    assert(u =~= s);
}

/// The buffer/cursor engine. Its model is an [`EditorState`], reached
/// through `@`; every operation's contract is stated over that model.
pub struct TerminalCursor {
    content: Vec<Vec<char>>,
    editing: bool,
    x: usize,
    y: usize,
}

impl View for TerminalCursor {
    type V = EditorState;

    closed spec fn view(&self) -> EditorState {
        EditorState {
            lines: Seq::new(self.content@.len(), |i: int| self.content@[i]@),
            col: self.x as int,
            row: self.y as int,
            editing: self.editing,
        }
    }
}

impl TerminalCursor {
    /// Seeds the buffer with the given lines and places the cursor at (0, 0)
    /// in normal mode. An empty seed is replaced by a single empty line, so
    /// that the buffer invariant holds from the start.
    pub fn new(content: Vec<String>) -> (r: TerminalCursor)
        ensures
            r@.wf(),
            content@.len() == 0 ==> r@.lines =~= seq![Seq::<char>::empty()],
            content@.len() > 0 ==> r@.lines.len() == content@.len() && (forall|i: int|
                0 <= i < content@.len() ==> r@.lines[i] == content@[i]@),
            r@.col == 0,
            r@.row == 0,
            r@.editing == false,
    {
        let mut lines: Vec<Vec<char>> = Vec::new();
        let mut i: usize = 0;
        while i < content.len()
            invariant
                i <= content@.len(),
                lines@.len() == i,
                forall|j: int| 0 <= j < i ==> lines@[j]@ == content@[j]@,
            decreases content@.len() - i,
        {
            lines.push(chars_of(content[i].as_str()));
            i = i + 1;
        }
        if lines.len() == 0 {
            lines.push(Vec::new());
        }
        TerminalCursor { content: lines, editing: false, x: 0, y: 0 }
    }

    /// Places the cursor at (0, 0); the buffer and the mode are untouched.
    /// The caller repaints the viewport from [`Self::write_content`].
    pub fn initialize(&mut self)
        requires
            old(self)@.wf(),
        ensures
            final(self)@.wf(),
            final(self)@.lines == old(self)@.lines,
            final(self)@.editing == old(self)@.editing,
            final(self)@.col == 0,
            final(self)@.row == 0,
    {
        self.x = 0;
        self.y = 0;
    }

    /// Whether the engine is in editing mode.
    pub fn is_editing(&self) -> (r: bool)
        ensures
            r == self@.editing,
    {
        self.editing
    }

    /// Switches the mode flag. The visible cursor glyph that goes with the
    /// mode is the terminal's business, outside this library.
    pub fn set_editing(&mut self, editing: bool)
        ensures
            final(self)@.lines == old(self)@.lines,
            final(self)@.col == old(self)@.col,
            final(self)@.row == old(self)@.row,
            final(self)@.editing == editing,
    {
        self.editing = editing;
    }

    /// The number of lines in the buffer.
    pub fn line_count(&self) -> (n: usize)
        ensures
            n == self@.lines.len(),
    {
        self.content.len()
    }

    /// The characters of line `i`.
    pub fn line(&self, i: usize) -> (r: &Vec<char>)
        requires
            i < self@.lines.len(),
        ensures
            r@ == self@.lines[i as int],
    {
        &self.content[i]
    }

    /// The cursor as (column, row).
    pub fn position(&self) -> (r: (usize, usize))
        ensures
            r.0 == self@.col,
            r.1 == self@.row,
    {
        (self.x, self.y)
    }

    /// Clamps the column onto the characters of the current line; used after
    /// a row change so that the cursor never points past the line it is on.
    fn cap_col(&mut self)
        requires
            old(self)@.lines.len() >= 1,
            0 <= old(self)@.row < old(self)@.lines.len(),
        ensures
            final(self)@.lines == old(self)@.lines,
            final(self)@.row == old(self)@.row,
            final(self)@.editing == old(self)@.editing,
            final(self)@.col == capped(old(self)@.current_line_len(), old(self)@.col),
    {
        let len = self.content[self.y].len();
        if len == 0 {
            self.x = 0;
        } else if self.x >= len {
            self.x = len - 1;
        }
    }

    /// Moves the cursor up by `amount` rows, clamping at the first line.
    pub fn move_up(&mut self, amount: usize)
        requires
            old(self)@.wf(),
        ensures
            final(self)@ == old(self)@.move_up_step(amount as int),
            final(self)@.wf(),
            final(self)@.nav_bounded(),
            final(self)@.lines == old(self)@.lines,
    {
        if self.y < amount {
            self.y = 0;
        } else {
            self.y = self.y - amount;
        }
        self.cap_col();
    }

    /// Moves the cursor down by `amount` rows, clamping at the last line.
    pub fn move_down(&mut self, amount: usize)
        requires
            old(self)@.wf(),
        ensures
            final(self)@ == old(self)@.move_down_step(amount as int),
            final(self)@.wf(),
            final(self)@.nav_bounded(),
            final(self)@.lines == old(self)@.lines,
    {
        let n = self.content.len();
        if amount >= n - self.y {
            self.y = n - 1;
        } else {
            self.y = self.y + amount;
        }
        self.cap_col();
    }

    /// Moves the cursor left by `amount` columns, clamping at column 0.
    pub fn move_left(&mut self, amount: usize)
        requires
            old(self)@.wf(),
        ensures
            final(self)@ == old(self)@.move_left_step(amount as int),
            final(self)@.wf(),
            old(self)@.nav_bounded() ==> final(self)@.nav_bounded(),
            final(self)@.lines == old(self)@.lines,
    {
        if self.x < amount {
            self.x = 0;
        } else {
            self.x = self.x - amount;
        }
    }

    /// Moves the cursor right by `amount` columns, clamping at the last
    /// character of the current line (it stays on the last character, not
    /// one past it), or at column 0 on an empty line.
    pub fn move_right(&mut self, amount: usize)
        requires
            old(self)@.wf(),
        ensures
            final(self)@ == old(self)@.move_right_step(amount as int),
            final(self)@.wf(),
            final(self)@.nav_bounded(),
            final(self)@.lines == old(self)@.lines,
    {
        let len = self.content[self.y].len();
        if len == 0 {
            self.x = 0;
        } else if amount >= len - self.x {
            self.x = len - 1;
        } else {
            self.x = self.x + amount;
        }
    }

    /// Jumps the cursor to the absolute position (`x`, `y`). There is no
    /// clamping: the caller is responsible for handing in a position that
    /// lies within the buffer.
    pub fn set_position(&mut self, x: usize, y: usize)
        requires
            old(self)@.wf(),
            y < old(self)@.lines.len(),
            x <= old(self)@.lines[y as int].len(),
        ensures
            final(self)@.wf(),
            final(self)@.lines == old(self)@.lines,
            final(self)@.editing == old(self)@.editing,
            final(self)@.col == x,
            final(self)@.row == y,
    {
        self.x = x;
        self.y = y;
    }

    /// Writes one character at the cursor, exactly as
    /// [`EditorState::write_char_step`] says: a line break splits the
    /// current line at the cursor column and moves the cursor to column 0 of
    /// the new line below; any other character is inserted at the cursor
    /// column, which advances by one. The line count grows by one on a line
    /// break and is unchanged otherwise.
    pub fn write_char(&mut self, c: char)
        requires
            old(self)@.wf(),
        ensures
            final(self)@ == old(self)@.write_char_step(c),
            final(self)@.wf(),
            final(self)@.editing == old(self)@.editing,
            c != '\n' ==> {
                &&& final(self)@.lines.len() == old(self)@.lines.len()
                &&& final(self)@.lines[old(self)@.row].len() == old(self)@.lines[old(self)@.row].len() + 1
                &&& final(self)@.col == old(self)@.col + 1
                &&& final(self)@.row == old(self)@.row
            },
            c == '\n' ==> {
                &&& final(self)@.lines.len() == old(self)@.lines.len() + 1
                &&& final(self)@.lines[old(self)@.row] == old(self)@.lines[old(self)@.row].take(old(self)@.col)
                &&& final(self)@.lines[old(self)@.row + 1] == old(self)@.lines[old(self)@.row].skip(old(self)@.col)
                &&& final(self)@.col == 0
                &&& final(self)@.row == old(self)@.row + 1
            },
    {
        let y = self.y;
        let x = self.x;
        if c == '\n' {
            let mut line = self.content.remove(y);
            let right = line.split_off(x);
            self.content.insert(y, line);
            let m = self.content.len();
            assert(y < m);
            self.content.insert(y + 1, right);
            self.x = 0;
            self.y = y + 1;
            proof {
                let prior = old(self)@;
                assert(self@.lines =~= prior.lines.update(prior.row, prior.lines[prior.row].take(prior.col)).insert(
                    prior.row + 1,
                    prior.lines[prior.row].skip(prior.col),
                ));
                assert(self@ =~= prior.write_char_step(c));
            }
        } else {
            let mut line = self.content.remove(y);
            line.insert(x, c);
            let n = line.len();
            self.content.insert(y, line);
            assert(x < n);
            self.x = x + 1;
            proof {
                let prior = old(self)@;
                assert(self@.lines =~= prior.lines.update(prior.row, prior.lines[prior.row].insert(prior.col, c)));
                assert(self@ =~= prior.write_char_step(c));
            }
        }
    }

    /// Deletes before the cursor, exactly as
    /// [`EditorState::delete_char_step`] says. At (0, 0) the buffer and the
    /// cursor are untouched. At column 0 of a later row the current line is
    /// joined onto the end of the previous one, the line count shrinks by
    /// one, and the cursor lands on the seam. Anywhere else the character
    /// before the cursor goes and the column steps back by one.
    pub fn delete_char(&mut self)
        requires
            old(self)@.wf(),
        ensures
            final(self)@ == old(self)@.delete_char_step(),
            final(self)@.wf(),
            final(self)@.editing == old(self)@.editing,
            old(self)@.col == 0 && old(self)@.row == 0 ==> final(self)@ == old(self)@,
            old(self)@.col == 0 && old(self)@.row > 0 ==> {
                &&& final(self)@.lines.len() == old(self)@.lines.len() - 1
                &&& final(self)@.lines[old(self)@.row - 1] == old(self)@.lines[old(self)@.row - 1]
                    + old(self)@.lines[old(self)@.row]
                &&& final(self)@.col == old(self)@.lines[old(self)@.row - 1].len()
                &&& final(self)@.row == old(self)@.row - 1
            },
            old(self)@.col > 0 ==> {
                &&& final(self)@.lines.len() == old(self)@.lines.len()
                &&& final(self)@.lines[old(self)@.row] == old(self)@.lines[old(self)@.row].remove(old(self)@.col - 1)
                &&& final(self)@.col == old(self)@.col - 1
                &&& final(self)@.row == old(self)@.row
            },
    {
        if self.x == 0 {
            if self.y > 0 {
                let mut cur = self.content.remove(self.y);
                let y2 = self.y - 1;
                let mut prev = self.content.remove(y2);
                let newx = prev.len();
                prev.append(&mut cur);
                self.content.insert(y2, prev);
                self.x = newx;
                self.y = y2;
                proof {
                    let prior = old(self)@;
                    let merged = prior.lines[prior.row - 1] + prior.lines[prior.row];
                    assert(self@.lines =~= prior.lines.update(prior.row - 1, merged).remove(prior.row));
                    assert(self@ =~= prior.delete_char_step());
                }
            }
        } else {
            let mut line = self.content.remove(self.y);
            line.remove(self.x - 1);
            self.content.insert(self.y, line);
            self.x = self.x - 1;
            proof {
                let prior = old(self)@;
                assert(self@.lines =~= prior.lines.update(prior.row, prior.lines[prior.row].remove(prior.col - 1)));
                assert(self@ =~= prior.delete_char_step());
            }
        }
    }

    /// Writes every character of `text` in order through
    /// [`Self::write_char`]: a line break in the text splits the line at the
    /// cursor, any other character is inserted there.
    pub fn write_text(&mut self, text: &str)
        requires
            old(self)@.wf(),
        ensures
            final(self)@ == old(self)@.write_chars_step(text@),
            final(self)@.wf(),
            final(self)@.editing == old(self)@.editing,
    {
        let chars = chars_of(text);
        let mut i: usize = 0;
        while i < chars.len()
            invariant
                i <= chars@.len(),
                chars@ == text@,
                self@ == old(self)@.write_chars_step(text@.take(i as int)),
                self@.wf(),
                self@.editing == old(self)@.editing,
            decreases chars@.len() - i,
        {
            self.write_char(chars[i]);
            proof {
                assert(text@.take(i as int + 1).drop_last() =~= text@.take(i as int));
                assert(text@.take(i as int + 1).last() == text@[i as int]);
            }
            i = i + 1;
        }
        proof {
            assert(text@.take(text@.len() as int) =~= text@);
        }
    }

    /// Opens an empty line above the current one; the cursor ends at column
    /// 0 of the line it was on, which has moved one row down.
    pub fn next_line(&mut self)
        requires
            old(self)@.wf(),
        ensures
            final(self)@.wf(),
            final(self)@.lines =~= old(self)@.lines.insert(old(self)@.row, Seq::<char>::empty()),
            final(self)@.editing == old(self)@.editing,
            final(self)@.col == 0,
            final(self)@.row == old(self)@.row + 1,
    {
        self.content.insert(self.y, Vec::new());
        let n = self.content.len();
        assert(self.y < n);
        self.y = self.y + 1;
        self.x = 0;
    }

    /// The full-repaint plan: one step per line of the buffer, writing the
    /// line and stepping to the start of the next row, and a final step that
    /// writes nothing and restores the terminal cursor to the logical cursor.
    /// Replaying the steps leaves the terminal showing exactly the buffer,
    /// with the visible cursor on the logical position.
    pub fn write_content(&self) -> (steps: Vec<RenderStep>)
        requires
            self@.wf(),
        ensures
            steps@.len() == self@.lines.len() + 1,
            forall|i: int|
                0 <= i < self@.lines.len() ==> (#[trigger] steps@[i]).text@ == self@.lines[i]
                    && steps@[i].x == 0 && steps@[i].y == i + 1,
            steps@.last().text@ == Seq::<char>::empty(),
            steps@.last().x == self@.col,
            steps@.last().y == self@.row,
    {
        let mut steps: Vec<RenderStep> = Vec::new();
        let mut i: usize = 0;
        while i < self.content.len()
            invariant
                i <= self@.lines.len(),
                steps@.len() == i,
                forall|j: int|
                    0 <= j < i ==> (#[trigger] steps@[j]).text@ == self@.lines[j]
                        && steps@[j].x == 0 && steps@[j].y == j + 1,
            decreases self@.lines.len() - i,
        {
            let text = copy_chars(&self.content[i]);
            steps.push(RenderStep { text, x: 0, y: i + 1 });
            i = i + 1;
        }
        steps.push(RenderStep { text: Vec::new(), x: self.x, y: self.y });
        steps
    }

    /// Performs one routed command on the engine: the four moves go by one
    /// step, writing and deleting go through [`Self::write_char`] and
    /// [`Self::delete_char`], the mode switches set the flag, and `Quit` and
    /// `Ignore` leave the engine alone. Returns whether the command asks the
    /// event loop to stop.
    pub fn apply_action(&mut self, action: Action) -> (quit: bool)
        requires
            old(self)@.wf(),
        ensures
            final(self)@ == action_step(old(self)@, action),
            final(self)@.wf(),
            quit == (action == Action::Quit),
    {
        match action {
            Action::Quit => true,
            Action::MoveUp => {
                self.move_up(1);
                false
            },
            Action::MoveDown => {
                self.move_down(1);
                false
            },
            Action::MoveLeft => {
                self.move_left(1);
                false
            },
            Action::MoveRight => {
                self.move_right(1);
                false
            },
            Action::EnterEditing => {
                self.set_editing(true);
                false
            },
            Action::LeaveEditing => {
                self.set_editing(false);
                false
            },
            Action::Write(c) => {
                self.write_char(c);
                false
            },
            Action::Delete => {
                self.delete_char();
                false
            },
            Action::Ignore => false,
        }
    }
}

/// What one routed command does to the editor model.
pub open spec fn action_step(s: EditorState, action: Action) -> EditorState {
    match action {
        Action::Quit => s,
        Action::MoveUp => s.move_up_step(1),
        Action::MoveDown => s.move_down_step(1),
        Action::MoveLeft => s.move_left_step(1),
        Action::MoveRight => s.move_right_step(1),
        Action::EnterEditing => EditorState { editing: true, ..s },
        Action::LeaveEditing => EditorState { editing: false, ..s },
        Action::Write(c) => s.write_char_step(c),
        Action::Delete => s.delete_char_step(),
        Action::Ignore => s,
    }
}

/// A copy of the characters of a line.
fn copy_chars(v: &Vec<char>) -> (r: Vec<char>)
    ensures
        r@ == v@,
{
    let mut r: Vec<char> = Vec::new();
    let mut i: usize = 0;
    while i < v.len()
        invariant
            i <= v@.len(),
            r@ == v@.take(i as int),
        decreases v@.len() - i,
    {
        r.push(v[i]);
        proof {
            assert(r@ =~= v@.take(i as int + 1));
        }
        i = i + 1;
    }
    proof {
        assert(v@.take(v@.len() as int) =~= v@);
    }
    r
}

/// The characters of a string slice, in order.
fn chars_of(text: &str) -> (r: Vec<char>)
    ensures
        r@ == text@,
{
    let mut r: Vec<char> = Vec::new();
    let mut it = text.chars();
    proof {
        vstd::string::axiom_spec_iter(text);
    }
    loop
        invariant
            it.obeys_prophetic_iter_laws(),
            it.decrease() is Some,
            r@ + it.remaining() == text@,
        ensures
            r@ == text@,
        decreases it.decrease()->0,
    {
        let ghost prev = it;
        let ghost prev_r = r@;
        let next = it.next();
        proof {
            vstd::string::next_postcondition(&prev, &it, next);
        }
        match next {
            Some(c) => {
                r.push(c);
                proof {
                    assert(prev.remaining().len() > 0);
                    assert(r@ + it.remaining() =~= prev_r + prev.remaining());
                }
            },
            None => {
                proof {
                    assert(prev.remaining().len() == 0);
                    assert(r@ + prev.remaining() =~= r@);
                }
                break;
            },
        }
    }
    r
}

} // verus!
