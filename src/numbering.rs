use vstd::prelude::*;

use crate::config::Config;

verus! {

/// The character of a decimal digit.
pub open spec fn digit_char(d: nat) -> char {
    "0123456789"@[d as int]
}

/// `n` written in decimal, most significant digit first, without leading zeros.
pub open spec fn decimal(n: nat) -> Seq<char>
    decreases n,
{
    if n < 10 {
        seq![digit_char(n)]
    } else {
        decimal(n / 10).push(digit_char(n % 10))
    }
}

/// `s` preceded by enough spaces to fill `width` characters.
pub open spec fn right_aligned(s: Seq<char>, width: nat) -> Seq<char> {
    if s.len() >= width {
        s
    } else {
        Seq::new((width - s.len()) as nat, |i: int| ' ') + s
    }
}

/// Whether `line` is printed with its number in front.
pub open spec fn is_numbered(number_lines: bool, number_nonblank_lines: bool, line: Seq<char>) -> bool {
    number_lines || (number_nonblank_lines && line.len() > 0)
}

/// Whether `line` takes up a number, so that the next line gets the one after.
pub open spec fn advances(number_nonblank_lines: bool, line: Seq<char>) -> bool {
    !number_nonblank_lines || line.len() > 0
}

/// What is printed for `line` when the counter stands at `n`.
pub open spec fn line_output(number_lines: bool, number_nonblank_lines: bool, n: nat, line: Seq<char>) -> Seq<char> {
    if is_numbered(number_lines, number_nonblank_lines, line) {
        right_aligned(decimal(n), 6) + seq!['\t'] + line + seq!['\n']
    } else {
        line + seq!['\n']
    }
}

/// The counter after `lines`, counting from one.
pub open spec fn counter_after(number_nonblank_lines: bool, lines: Seq<Seq<char>>) -> nat
    decreases lines.len(),
{
    if lines.len() == 0 {
        1
    } else {
        counter_after(number_nonblank_lines, lines.drop_last()) + if advances(
            number_nonblank_lines,
            lines.last(),
        ) {
            1nat
        } else {
            0nat
        }
    }
}

/// What is printed for the lines of one input.
pub open spec fn file_output(number_lines: bool, number_nonblank_lines: bool, lines: Seq<Seq<char>>) -> Seq<char>
    decreases lines.len(),
{
    if lines.len() == 0 {
        Seq::empty()
    } else {
        file_output(number_lines, number_nonblank_lines, lines.drop_last()) + line_output(
            number_lines,
            number_nonblank_lines,
            counter_after(number_nonblank_lines, lines.drop_last()),
            lines.last(),
        )
    }
}

/// What is printed for several inputs, one after the other.
pub open spec fn files_output(number_lines: bool, number_nonblank_lines: bool, files: Seq<Seq<Seq<char>>>) -> Seq<char>
    decreases files.len(),
{
    if files.len() == 0 {
        Seq::empty()
    } else {
        files_output(number_lines, number_nonblank_lines, files.drop_last()) + file_output(
            number_lines,
            number_nonblank_lines,
            files.last(),
        )
    }
}

/// The text of each line.
pub open spec fn lines_view(lines: Seq<String>) -> Seq<Seq<char>> {
    lines.map_values(|l: String| l@)
}

fn digit_str(d: usize) -> (r: &'static str)
    requires
        d < 10,
    ensures
        r@ == seq![digit_char(d as nat)],
{
    proof {
        reveal_strlit("0123456789");
        reveal_strlit("0");
        reveal_strlit("1");
        reveal_strlit("2");
        reveal_strlit("3");
        reveal_strlit("4");
        reveal_strlit("5");
        reveal_strlit("6");
        reveal_strlit("7");
        reveal_strlit("8");
        reveal_strlit("9");
    }
    let r = match d {
        0 => "0",
        1 => "1",
        2 => "2",
        3 => "3",
        4 => "4",
        5 => "5",
        6 => "6",
        7 => "7",
        8 => "8",
        _ => "9",
    };
    assert(r@ =~= seq![digit_char(d as nat)]);
    r
}

fn decimal_len(n: usize) -> (r: usize)
    ensures
        r as nat == decimal(n as nat).len(),
    decreases n,
{
    if n < 10 {
        1
    } else {
        let k = decimal_len(n / 10);
        proof {
            lemma_decimal_len_bound(n as nat / 10);
        }
        k + 1
    }
}

proof fn lemma_decimal_len_bound(n: nat)
    ensures
        decimal(n).len() <= n + 1,
    decreases n,
{
    if n >= 10 {
        lemma_decimal_len_bound(n / 10);
    }
}

fn push_decimal(out: &mut String, n: usize)
    ensures
        final(out)@ == old(out)@ + decimal(n as nat),
    decreases n,
{
    if n >= 10 {
        push_decimal(out, n / 10);
    }
    out.append(digit_str(n % 10));
    assert(decimal(n as nat) =~= if n < 10 {
        seq![digit_char(n as nat)]
    } else {
        decimal(n as nat / 10).push(digit_char(n as nat % 10))
    });
}

fn push_right_aligned(out: &mut String, n: usize, width: usize)
    ensures
        final(out)@ == old(out)@ + right_aligned(decimal(n as nat), width as nat),
{
    let len = decimal_len(n);
    let pad: usize = if len < width {
        width - len
    } else {
        0
    };
    let ghost start = out@;
    let mut i: usize = 0;
    while i < pad
        invariant
            i <= pad,
            out@ == start + Seq::new(i as nat, |k: int| ' '),
        decreases pad - i,
    {
        proof {
            reveal_strlit(" ");
        }
        out.append(" ");
        i = i + 1;
        assert(out@ =~= start + Seq::new(i as nat, |k: int| ' '));
    }
    push_decimal(out, n);
    assert(out@ =~= start + right_aligned(decimal(n as nat), width as nat));
}

/// Numbers the lines of one input, one line at a time.
pub struct LineNumberer {
    number_lines: bool,
    number_nonblank_lines: bool,
    next: usize,
}

impl LineNumberer {
    pub closed spec fn spec_number_lines(&self) -> bool {
        self.number_lines
    }

    pub closed spec fn spec_number_nonblank_lines(&self) -> bool {
        self.number_nonblank_lines
    }

    /// The number that the next counted line gets.
    pub closed spec fn spec_next(&self) -> nat {
        self.next as nat
    }

    /// A counter at one, for the start of an input.
    pub fn new(config: &Config) -> (r: LineNumberer)
        ensures
            r.spec_next() == 1,
            r.spec_number_lines() == config.spec_number_lines(),
            r.spec_number_nonblank_lines() == config.spec_number_nonblank_lines(),
    {
        LineNumberer {
            number_lines: config.number_lines(),
            number_nonblank_lines: config.number_nonblank_lines(),
            next: 1,
        }
    }

    /// The number that the next counted line gets.
    pub fn next_number(&self) -> (r: usize)
        ensures
            r as nat == self.spec_next(),
    {
        self.next
    }

    /// The text printed for `line`, newline included; the counter moves on
    /// unless only non-blank lines are numbered and `line` is blank.
    pub fn number_line(&mut self, line: &str) -> (r: String)
        requires
            old(self).spec_next() < usize::MAX,
        ensures
            r@ == line_output(
                old(self).spec_number_lines(),
                old(self).spec_number_nonblank_lines(),
                old(self).spec_next(),
                line@,
            ),
            final(self).spec_number_lines() == old(self).spec_number_lines(),
            final(self).spec_number_nonblank_lines() == old(self).spec_number_nonblank_lines(),
            final(self).spec_next() == old(self).spec_next() + if advances(
                old(self).spec_number_nonblank_lines(),
                line@,
            ) {
                1nat
            } else {
                0nat
            },
    {
        proof {
            reveal_strlit("\t");
            reveal_strlit("\n");
        }
        let blank = line.is_empty();
        let mut out = String::new();
        if self.number_lines || (self.number_nonblank_lines && !blank) {
            push_right_aligned(&mut out, self.next, 6);
            out.append("\t");
        }
        out.append(line);
        out.append("\n");
        if !self.number_nonblank_lines || !blank {
            self.next = self.next + 1;
        }
        assert(out@ =~= line_output(self.number_lines, self.number_nonblank_lines, old(self).next as nat, line@));
        out
    }
}

/// The whole text printed for one input whose lines are `lines`, numbered
/// from one.
pub fn render_lines(config: &Config, lines: &Vec<String>) -> (r: String)
    requires
        lines@.len() < usize::MAX,
    ensures
        r@ == file_output(
            config.spec_number_lines(),
            config.spec_number_nonblank_lines(),
            lines_view(lines@),
        ),
{
    let ghost nl = config.spec_number_lines();
    let ghost nb = config.spec_number_nonblank_lines();
    let ghost lv = lines_view(lines@);
    let mut numberer = LineNumberer::new(config);
    let mut out = String::new();
    let mut i: usize = 0;
    assert(lv.take(0) =~= Seq::<Seq<char>>::empty());
    while i < lines.len()
        invariant
            i <= lines@.len(),
            lines@.len() < usize::MAX,
            lv == lines_view(lines@),
            numberer.spec_number_lines() == nl,
            numberer.spec_number_nonblank_lines() == nb,
            numberer.spec_next() == counter_after(nb, lv.take(i as int)),
            numberer.spec_next() <= i + 1,
            out@ == file_output(nl, nb, lv.take(i as int)),
        decreases lines@.len() - i,
    {
        let ghost before = lv.take(i as int);
        let piece = numberer.number_line(lines[i].as_str());
        out.append(piece.as_str());
        i = i + 1;
        assert(lv.take(i as int).drop_last() =~= before);
        assert(lv.take(i as int).last() == lines@[i - 1]@);
    }
    assert(lv.take(i as int) =~= lv);
    out
}

/// The whole text printed for several inputs in turn; each input is numbered
/// from one.
pub fn render_inputs(config: &Config, inputs: &Vec<Vec<String>>) -> (r: String)
    requires
        forall|k: int| 0 <= k < inputs@.len() ==> #[trigger] inputs@[k]@.len() < usize::MAX,
    ensures
        r@ == files_output(
            config.spec_number_lines(),
            config.spec_number_nonblank_lines(),
            inputs@.map_values(|f: Vec<String>| lines_view(f@)),
        ),
{
    let ghost nl = config.spec_number_lines();
    let ghost nb = config.spec_number_nonblank_lines();
    let ghost fv = inputs@.map_values(|f: Vec<String>| lines_view(f@));
    let mut out = String::new();
    let mut i: usize = 0;
    assert(fv.take(0) =~= Seq::<Seq<Seq<char>>>::empty());
    while i < inputs.len()
        invariant
            i <= inputs@.len(),
            forall|k: int| 0 <= k < inputs@.len() ==> #[trigger] inputs@[k]@.len() < usize::MAX,
            fv == inputs@.map_values(|f: Vec<String>| lines_view(f@)),
            nl == config.spec_number_lines(),
            nb == config.spec_number_nonblank_lines(),
            out@ == files_output(nl, nb, fv.take(i as int)),
        decreases inputs@.len() - i,
    {
        let ghost before = fv.take(i as int);
        let piece = render_lines(config, &inputs[i]);
        out.append(piece.as_str());
        i = i + 1;
        assert(fv.take(i as int).drop_last() =~= before);
        assert(fv.take(i as int).last() == lines_view(inputs@[i - 1]@));
    }
    assert(fv.take(i as int) =~= fv);
    out
}

/// Printing the same lines with the same settings gives the same text each
/// time: the output depends on nothing but the settings and the lines.
pub proof fn lemma_output_repeatable(
    number_lines: bool,
    number_nonblank_lines: bool,
    first_run: Seq<Seq<char>>,
    second_run: Seq<Seq<char>>,
)
    requires
        first_run == second_run,
    ensures
        file_output(number_lines, number_nonblank_lines, first_run) == file_output(
            number_lines,
            number_nonblank_lines,
            second_run,
        ),
{
}

/// Each input is numbered from one: two inputs in turn print what each prints
/// alone, not the numbering of their lines run together.
pub proof fn lemma_counter_resets_per_input(
    number_lines: bool,
    number_nonblank_lines: bool,
    first: Seq<Seq<char>>,
    second: Seq<Seq<char>>,
)
    ensures
        files_output(number_lines, number_nonblank_lines, seq![first, second]) == file_output(
            number_lines,
            number_nonblank_lines,
            first,
        ) + file_output(number_lines, number_nonblank_lines, second),
{
    let both = seq![first, second];
    assert(both.drop_last() =~= seq![first]);
    assert(seq![first].drop_last() =~= Seq::<Seq<Seq<char>>>::empty());
    assert(files_output(number_lines, number_nonblank_lines, Seq::empty()) == Seq::<char>::empty());
    assert(Seq::<char>::empty() + file_output(number_lines, number_nonblank_lines, first) =~= file_output(
        number_lines,
        number_nonblank_lines,
        first,
    ));
    assert(files_output(number_lines, number_nonblank_lines, seq![first]) =~= file_output(
        number_lines,
        number_nonblank_lines,
        first,
    ));
}

/// Unless only non-blank lines are numbered, every line takes a number: after
/// `lines` the counter stands one past their count.
pub proof fn lemma_every_line_counted(lines: Seq<Seq<char>>)
    ensures
        counter_after(false, lines) == lines.len() + 1,
    decreases lines.len(),
{
    if lines.len() > 0 {
        lemma_every_line_counted(lines.drop_last());
    }
}

/// When only non-blank lines are numbered, a blank line is printed bare and
/// leaves the counter where it was.
pub proof fn lemma_blank_line_skipped(lines: Seq<Seq<char>>)
    ensures
        counter_after(true, lines.push(Seq::empty())) == counter_after(true, lines),
        line_output(false, true, counter_after(true, lines), Seq::empty()) == seq!['\n'],
{
    assert(lines.push(Seq::empty()).drop_last() =~= lines);
    assert(Seq::<char>::empty() + seq!['\n'] =~= seq!['\n']);
}

} // verus!
