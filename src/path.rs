use vstd::prelude::*;
use crate::error::BackupErrorKind;
use crate::size::{append_decimal, decimal_text};

verus! {

/// One component of a path, as the platform splits it.
#[derive(Debug, PartialEq, Eq)]
pub enum PathComponent {
    /// A volume prefix: its text, and its drive letter where it names a disk
    /// (`C:` or `\\?\C:`).
    Prefix { raw: String, drive: Option<char> },
    /// The separator that makes a path absolute.
    RootDir,
    CurDir,
    ParentDir,
    Normal(String),
}

/// The mathematical value of a path component.
pub enum ComponentView {
    Prefix { raw: Seq<char>, drive: Option<char> },
    RootDir,
    CurDir,
    ParentDir,
    Normal(Seq<char>),
}

impl View for PathComponent {
    type V = ComponentView;

    open spec fn view(&self) -> ComponentView {
        match self {
            PathComponent::Prefix { raw, drive } => ComponentView::Prefix { raw: raw@, drive: *drive },
            PathComponent::RootDir => ComponentView::RootDir,
            PathComponent::CurDir => ComponentView::CurDir,
            PathComponent::ParentDir => ComponentView::ParentDir,
            PathComponent::Normal(s) => ComponentView::Normal(s@),
        }
    }
}

/// The value of a sequence of components.
pub open spec fn components_view(p: Seq<PathComponent>) -> Seq<ComponentView> {
    p.map_values(|c: PathComponent| c@)
}

/// The volume a path lives on: the drive letter of its first component,
/// when that component is a drive prefix.
pub open spec fn volume_of(p: Seq<ComponentView>) -> Option<char> {
    if p.len() > 0 && p[0] is Prefix {
        p[0]->drive
    } else {
        None
    }
}

/// What follows a path's prefix and the root separator after it.
pub open spec fn below_root(p: Seq<ComponentView>) -> Seq<ComponentView> {
    if p.len() >= 2 {
        p.skip(2)
    } else {
        Seq::empty()
    }
}

/// Where a source path is mirrored under `root`: the root, then the drive
/// letter as a directory of its own, then the source below its root.
pub open spec fn destination_of(root: Seq<ComponentView>, source: Seq<ComponentView>) -> Option<
    Seq<ComponentView>,
> {
    match volume_of(source) {
        Some(v) => Some(root + seq![ComponentView::Normal(seq![v])] + below_root(source)),
        None => None,
    }
}


/// A destination path, component by component.
#[derive(Debug, PartialEq, Eq)]
pub struct DestinationPath {
    pub components: Vec<PathComponent>,
}

impl DestinationPath {
    pub open spec fn view_components(&self) -> Seq<ComponentView> {
        components_view(self.components@)
    }
}

/// Relies on std's `From<char> for String`: a string of that one character.
#[verifier::external_body]
fn char_to_string(c: char) -> (r: String)
    ensures
        r@ == seq![c],
{
    String::from(c)
}

impl PathComponent {
    /// A copy of the component with the same value.
    pub fn duplicate(&self) -> (r: Self)
        ensures
            r@ == self@,
    {
        match self {
            PathComponent::Prefix { raw, drive } => PathComponent::Prefix { raw: raw.clone(), drive: *drive },
            PathComponent::RootDir => PathComponent::RootDir,
            PathComponent::CurDir => PathComponent::CurDir,
            PathComponent::ParentDir => PathComponent::ParentDir,
            PathComponent::Normal(s) => PathComponent::Normal(s.clone()),
        }
    }
}

/// Appends copies of `src[from..]` to `dst`.
fn append_copies(dst: &mut Vec<PathComponent>, src: &Vec<PathComponent>, from: usize)
    requires
        from <= src.len(),
    ensures
        components_view(final(dst)@) == components_view(old(dst)@) + components_view(src@).skip(
            from as int,
        ),
{
    let mut i = from;
    while i < src.len()
        invariant
            from <= i <= src.len(),
            components_view(dst@) == components_view(old(dst)@) + components_view(src@).subrange(
                from as int,
                i as int,
            ),
        decreases src.len() - i,
    {
        let ghost before = dst@;
        let c = src[i].duplicate();
        dst.push(c);
        proof {
            assert(dst@ =~= before.push(c));
            assert(components_view(dst@) =~= components_view(before).push(c@));
        }
        i = i + 1;
        assert(components_view(dst@) =~= components_view(old(dst)@) + components_view(
            src@,
        ).subrange(from as int, i as int));
    }
    assert(components_view(src@).subrange(from as int, i as int) =~= components_view(src@).skip(
        from as int,
    ));
}

/// The volume identifier of a path: the drive letter its first component
/// names, if it names one.
pub fn volume_id(source: &Vec<PathComponent>) -> (r: Option<char>)
    ensures
        r == volume_of(components_view(source@)),
{
    if source.len() > 0 {
        match &source[0] {
            PathComponent::Prefix { drive, .. } => *drive,
            _ => None,
        }
    } else {
        None
    }
}

/// Maps a canonical source path to its mirror under `root`. A source
/// without a drive-letter prefix is refused with `NoDriveLetter`; the root
/// separator after the prefix is skipped so that it does not reset the path.
pub fn map_destination(root: &Vec<PathComponent>, source: &Vec<PathComponent>) -> (r: Result<
    DestinationPath,
    BackupErrorKind,
>)
    ensures
        match r {
            Ok(d) => destination_of(components_view(root@), components_view(source@)) == Some(
                d.view_components(),
            ),
            Err(e) => e is NoDriveLetter && destination_of(
                components_view(root@),
                components_view(source@),
            ) is None,
        },
{
    match volume_id(source) {
        None => Err(BackupErrorKind::NoDriveLetter),
        Some(letter) => {
            let mut components: Vec<PathComponent> = Vec::new();
            append_copies(&mut components, root, 0);
            components.push(PathComponent::Normal(char_to_string(letter)));
            let ghost with_volume = components_view(components@);
            if source.len() >= 2 {
                append_copies(&mut components, source, 2);
            }
            proof {
                let rv = components_view(root@);
                let sv = components_view(source@);
                assert(rv.skip(0) =~= rv);
                assert(with_volume =~= rv + seq![ComponentView::Normal(seq![letter])]);
                assert(components_view(components@) =~= rv + seq![ComponentView::Normal(seq![letter])]
                    + below_root(sv));
            }
            Ok(DestinationPath { components })
        },
    }
}

/// A destination never drops the volume: the component right after the
/// root is the source's drive letter.
pub proof fn lemma_destination_names_volume(root: Seq<ComponentView>, source: Seq<ComponentView>)
    requires
        volume_of(source) is Some,
    ensures
        destination_of(root, source) is Some,
        destination_of(root, source)->0.len() > root.len(),
        destination_of(root, source)->0.subrange(0, root.len() as int) == root,
        destination_of(root, source)->0[root.len() as int] == ComponentView::Normal(
            seq![volume_of(source)->0],
        ),
{
    let d = destination_of(root, source)->0;
    assert(d.subrange(0, root.len() as int) =~= root);
}

/// Sources on different volumes never share a destination under the same
/// root.
pub proof fn lemma_volumes_never_collide(
    root: Seq<ComponentView>,
    a: Seq<ComponentView>,
    b: Seq<ComponentView>,
)
    requires
        volume_of(a) is Some,
        volume_of(b) is Some,
        volume_of(a) != volume_of(b),
    ensures
        destination_of(root, a) != destination_of(root, b),
{
    lemma_destination_names_volume(root, a);
    lemma_destination_names_volume(root, b);
    let va = seq![volume_of(a)->0];
    let vb = seq![volume_of(b)->0];
    assert(va[0] != vb[0]);
    assert(ComponentView::Normal(va) != ComponentView::Normal(vb));
}

/// A calendar date as the local clock gives it.
#[derive(Debug, Clone, Copy, PartialEq, Eq, Structural)]
pub struct CalendarDate {
    pub day: u32,
    pub month: u32,
    pub year: i32,
}

impl CalendarDate {
    pub open spec fn wf(&self) -> bool {
        1 <= self.day <= 31 && 1 <= self.month <= 12
    }
}

/// A number written with at least two digits.
pub open spec fn two_digit_text(n: nat) -> Seq<char> {
    if n < 10 {
        seq!['0'] + decimal_text(n)
    } else {
        decimal_text(n)
    }
}

/// A year in decimal, with a minus sign before the common era.
pub open spec fn year_text(y: int) -> Seq<char> {
    if y < 0 {
        seq!['-'] + decimal_text((-y) as nat)
    } else {
        decimal_text(y as nat)
    }
}

/// The name of the dated backup folder: "Backup DD-MM-YYYY".
pub open spec fn backup_folder_text(date: CalendarDate) -> Seq<char> {
    seq!['B', 'a', 'c', 'k', 'u', 'p', ' '] + two_digit_text(date.day as nat) + seq!['-']
        + two_digit_text(date.month as nat) + seq!['-'] + year_text(date.year as int)
}

fn append_two_digits(s: &mut String, n: u32)
    ensures
        final(s)@ == old(s)@ + two_digit_text(n as nat),
{
    if n < 10 {
        s.append("0");
        proof { reveal_strlit("0"); }
    }
    append_decimal(s, n as u64);
    assert(s@ =~= old(s)@ + two_digit_text(n as nat));
}

/// The name of the backup folder for `date`, such as "Backup 05-03-2024".
pub fn backup_folder_name(date: &CalendarDate) -> (r: String)
    ensures
        r@ == backup_folder_text(*date),
{
    let mut s = String::new();
    s.append("Backup ");
    append_two_digits(&mut s, date.day);
    s.append("-");
    append_two_digits(&mut s, date.month);
    s.append("-");
    if date.year < 0 {
        s.append("-");
        let y = date.year as i64;
        append_decimal(&mut s, (-y) as u64);
    } else {
        append_decimal(&mut s, date.year as u64);
    }
    proof {
        reveal_strlit("Backup ");
        reveal_strlit("-");
    }
    assert(s@ =~= backup_folder_text(*date));
    s
}

/// Relies on chrono's `Local::now` and its `Datelike::day`, `month` and
/// `year`: today's date on the local clock, with a day from 1 to 31 and a
/// month from 1 to 12.
#[verifier::external_body]
fn local_today() -> (r: CalendarDate)
    ensures
        r.wf(),
{
    let now = chrono::Local::now();
    CalendarDate {
        day: chrono::Datelike::day(&now),
        month: chrono::Datelike::month(&now),
        year: chrono::Datelike::year(&now),
    }
}

/// The name of the backup folder for today's local date.
pub fn todays_backup_folder() -> (r: String)
    ensures
        exists|d: CalendarDate| d.wf() && r@ == backup_folder_text(d),
{
    let today = local_today();
    backup_folder_name(&today)
}

/// The destination root for a backup: the output path, then the dated
/// backup folder.
pub fn backup_root(output: &Vec<PathComponent>, folder: String) -> (r: Vec<PathComponent>)
    ensures
        components_view(r@) == components_view(output@) + seq![ComponentView::Normal(folder@)],
{
    let mut r: Vec<PathComponent> = Vec::new();
    append_copies(&mut r, output, 0);
    let ghost f = folder@;
    r.push(PathComponent::Normal(folder));
    proof {
        assert(components_view(output@).skip(0) =~= components_view(output@));
        assert(components_view(r@) =~= components_view(output@) + seq![ComponentView::Normal(f)]);
    }
    r
}

} // verus!
