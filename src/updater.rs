use crate::sample::clone_vec;
use vstd::prelude::*;
use vstd::string::*;

verus! {

/// Version of this build, which releases are compared against.
pub const CURRENT_VERSION: &'static str = "0.1.0";

/// What the last check for updates found.
#[derive(Debug)]
pub struct UpdateInfo {
    pub current_version: String,
    pub latest_version: String,
    pub update_available: bool,
    pub download_url: String,
}

impl Clone for UpdateInfo {
    fn clone(&self) -> (r: Self)
        ensures
            r == *self,
    {
        UpdateInfo {
            current_version: self.current_version.clone(),
            latest_version: self.latest_version.clone(),
            update_available: self.update_available,
            download_url: self.download_url.clone(),
        }
    }
}

impl Default for UpdateInfo {
    /// Nothing checked yet: the latest version known is this build's own.
    fn default() -> (r: Self)
        ensures
            r.current_version@ == CURRENT_VERSION@,
            r.latest_version@ == CURRENT_VERSION@,
            !r.update_available,
            r.download_url@.len() == 0,
    {
        UpdateInfo {
            current_version: String::from_str(CURRENT_VERSION),
            latest_version: String::from_str(CURRENT_VERSION),
            update_available: false,
            download_url: String::new(),
        }
    }
}

/// One downloadable file of a published release.
#[derive(Debug)]
pub struct GitHubAsset {
    pub name: String,
    pub browser_download_url: String,
}

impl Clone for GitHubAsset {
    fn clone(&self) -> (r: Self)
        ensures
            r == *self,
    {
        GitHubAsset {
            name: self.name.clone(),
            browser_download_url: self.browser_download_url.clone(),
        }
    }
}

/// A published release: its tag and its files.
#[derive(Debug)]
pub struct GitHubRelease {
    pub tag_name: String,
    pub assets: Vec<GitHubAsset>,
}

impl Clone for GitHubRelease {
    fn clone(&self) -> (r: Self)
        ensures
            r.tag_name == self.tag_name,
            r.assets@ == self.assets@,
    {
        GitHubRelease { tag_name: self.tag_name.clone(), assets: clone_vec(&self.assets) }
    }
}

/// `s` without its leading `v` characters.
pub open spec fn strip_leading_v(s: Seq<char>) -> Seq<char>
    decreases s.len(),
{
    if s.len() > 0 && s[0] == 'v' {
        strip_leading_v(s.drop_first())
    } else {
        s
    }
}

/// `c` is a decimal digit.
pub open spec fn is_digit(c: char) -> bool {
    '0' <= c && c <= '9'
}

/// The value of the decimal digit `c`.
pub open spec fn digit_value(c: char) -> nat {
    (c as u32 - '0' as u32) as nat
}

/// The number the decimal digits `d` write.
pub open spec fn digits_value(d: Seq<char>) -> nat
    decreases d.len(),
{
    if d.len() == 0 {
        0
    } else {
        digits_value(d.drop_last()) * 10 + digit_value(d.last())
    }
}

/// Every character of `d` is a decimal digit.
pub open spec fn all_digits(d: Seq<char>) -> bool {
    forall|i: int| 0 <= i < d.len() ==> is_digit(#[trigger] d[i])
}

/// `seg` read as an unsigned 32-bit number: an optional `+`, then at least
/// one decimal digit and nothing else, of a value that fits.
pub open spec fn parse_u32(seg: Seq<char>) -> Option<u32> {
    let d = if seg.len() > 0 && seg[0] == '+' {
        seg.drop_first()
    } else {
        seg
    };
    if d.len() > 0 && all_digits(d) && digits_value(d) <= u32::MAX {
        Some(digits_value(d) as u32)
    } else {
        None
    }
}

/// Splitting `s` at each `.`: the pieces before the last dot, and the piece
/// after it.
pub open spec fn split_state(s: Seq<char>) -> (Seq<Seq<char>>, Seq<char>)
    decreases s.len(),
{
    if s.len() == 0 {
        (seq![], seq![])
    } else {
        let (done, cur) = split_state(s.drop_last());
        if s.last() == '.' {
            (done.push(cur), seq![])
        } else {
            (done, cur.push(s.last()))
        }
    }
}

/// The pieces of `s` between dots, empty ones included.
pub open spec fn split_dots(s: Seq<char>) -> Seq<Seq<char>> {
    split_state(s).0.push(split_state(s).1)
}

/// The numbers among `segs`, in order; a piece that is no number is left out.
pub open spec fn parsed_parts(segs: Seq<Seq<char>>) -> Seq<u32>
    decreases segs.len(),
{
    if segs.len() == 0 {
        seq![]
    } else {
        let p = parsed_parts(segs.drop_last());
        match parse_u32(segs.last()) {
            Some(v) => p.push(v),
            None => p,
        }
    }
}

/// The numeric parts of a version string such as `1.2.3`.
pub open spec fn version_parts(s: Seq<char>) -> Seq<u32> {
    parsed_parts(split_dots(s))
}

/// Part `i` of `p`, zero where `p` is shorter.
pub open spec fn part_or_zero(p: Seq<u32>, i: int) -> u32 {
    if 0 <= i < p.len() {
        p[i]
    } else {
        0
    }
}

/// `latest` is a later version than `current`, comparing major, minor and
/// patch numbers in turn; parts beyond the third do not count.
pub open spec fn spec_is_newer(current: Seq<char>, latest: Seq<char>) -> bool {
    let c = version_parts(current);
    let l = version_parts(latest);
    part_or_zero(l, 0) > part_or_zero(c, 0) || (part_or_zero(l, 0) == part_or_zero(c, 0) && (
    part_or_zero(l, 1) > part_or_zero(c, 1) || (part_or_zero(l, 1) == part_or_zero(c, 1)
        && part_or_zero(l, 2) > part_or_zero(c, 2))))
}

/// `s` ends with `suffix`.
pub open spec fn has_suffix(s: Seq<char>, suffix: Seq<char>) -> bool {
    suffix.len() <= s.len() && s.subrange(s.len() - suffix.len(), s.len() as int) == suffix
}

/// An asset that installs the update: an archive or an executable.
pub open spec fn is_installer(name: Seq<char>) -> bool {
    has_suffix(name, ".zip"@) || has_suffix(name, ".exe"@)
}

/// Download address of the first installer among `assets`.
pub open spec fn first_installer(assets: Seq<GitHubAsset>) -> Option<Seq<char>>
    decreases assets.len(),
{
    if assets.len() == 0 {
        None
    } else if is_installer(assets[0].name@) {
        Some(assets[0].browser_download_url@)
    } else {
        first_installer(assets.drop_first())
    }
}

/// A number never shrinks when more digits follow.
proof fn lemma_digits_value_prefix(d: Seq<char>, k: int)
    requires
        0 <= k <= d.len(),
    ensures
        digits_value(d.take(k)) <= digits_value(d),
    decreases d.len(),
{
    if k < d.len() {
        lemma_digits_value_prefix(d.drop_last(), k);
        assert(d.drop_last().take(k) =~= d.take(k));
    } else {
        assert(d.take(k) =~= d);
    }
}

/// Reads `seg` as an unsigned 32-bit number.
pub fn parse_version_part(seg: &str) -> (r: Option<u32>)
    ensures
        r == parse_u32(seg@),
{
    let n = seg.unicode_len();
    let start: usize = if n > 0 && seg.get_char(0) == '+' {
        1
    } else {
        0
    };
    let ghost d = if seg@.len() > 0 && seg@[0] == '+' {
        seg@.drop_first()
    } else {
        seg@
    };
    assert(d =~= seg@.subrange(start as int, n as int));
    if start == n {
        assert(d.len() == 0);
        return None;
    }
    let mut value: u64 = 0;
    let mut i: usize = start;
    while i < n
        invariant
            start <= i <= n,
            n == seg@.len(),
            d == seg@.subrange(start as int, n as int),
            d == (if seg@.len() > 0 && seg@[0] == '+' {
                seg@.drop_first()
            } else {
                seg@
            }),
            all_digits(seg@.subrange(start as int, i as int)),
            value == digits_value(seg@.subrange(start as int, i as int)),
            value <= u32::MAX,
        decreases n - i,
    {
        let c = seg.get_char(i);
        let ghost prev = seg@.subrange(start as int, i as int);
        let ghost next = seg@.subrange(start as int, i + 1);
        assert(next.drop_last() =~= prev);
        assert(d.take(i + 1 - start) =~= next);
        if !('0' <= c && c <= '9') {
            assert(d[i - start] == c);
            assert(!is_digit(d[i - start]));
            return None;
        }
        value = value * 10 + (c as u64 - '0' as u64);
        assert(value == digits_value(next));
        if value > u32::MAX as u64 {
            proof {
                if all_digits(d) {
                    lemma_digits_value_prefix(d, i + 1 - start);
                }
            }
            return None;
        }
        i += 1;
    }
    assert(seg@.subrange(start as int, n as int) =~= d);
    Some(value as u32)
}

/// The numeric parts of the version string `s`.
pub fn version_parts_of(s: &str) -> (r: Vec<u32>)
    ensures
        r@ == version_parts(s@),
{
    let n = s.unicode_len();
    let mut parts: Vec<u32> = Vec::new();
    let mut start: usize = 0;
    let mut i: usize = 0;
    let ghost mut done: Seq<Seq<char>> = seq![];
    while i < n
        invariant
            n == s@.len(),
            start <= i <= n,
            split_state(s@.take(i as int)) == (done, s@.subrange(start as int, i as int)),
            parts@ == parsed_parts(done),
        decreases n - i,
    {
        let c = s.get_char(i);
        assert(s@.take(i + 1).drop_last() =~= s@.take(i as int));
        assert(s@.take(i + 1).last() == c);
        if c == '.' {
            let seg = s.substring_char(start, i);
            let ghost before = done;
            proof {
                done = done.push(seg@);
            }
            assert(done.drop_last() =~= before);
            match parse_version_part(seg) {
                Some(v) => parts.push(v),
                None => {},
            }
            start = i + 1;
            assert(s@.subrange(start as int, i + 1) =~= Seq::<char>::empty());
        } else {
            assert(s@.subrange(start as int, i + 1) =~= s@.subrange(start as int, i as int).push(
                c,
            ));
        }
        i += 1;
    }
    assert(s@.take(n as int) =~= s@);
    let last = s.substring_char(start, n);
    let ghost segs = done.push(last@);
    assert(segs.drop_last() =~= done);
    match parse_version_part(last) {
        Some(v) => parts.push(v),
        None => {},
    }
    parts
}

/// Part `i` of `p`, zero where `p` is shorter.
fn part_at(p: &Vec<u32>, i: usize) -> (r: u32)
    ensures
        r == part_or_zero(p@, i as int),
{
    if i < p.len() {
        p[i]
    } else {
        0
    }
}

/// Whether `s` ends with `suffix`.
pub fn ends_with(s: &str, suffix: &str) -> (r: bool)
    ensures
        r == has_suffix(s@, suffix@),
{
    let n = s.unicode_len();
    let m = suffix.unicode_len();
    if m > n {
        return false;
    }
    let mut k: usize = 0;
    while k < m
        invariant
            n == s@.len(),
            m == suffix@.len(),
            m <= n,
            k <= m,
            forall|j: int| 0 <= j < k ==> s@[n - m + j] == suffix@[j],
        decreases m - k,
    {
        if s.get_char(n - m + k) != suffix.get_char(k) {
            assert(s@.subrange(n - m, n as int)[k as int] != suffix@[k as int]);
            return false;
        }
        k += 1;
    }
    assert(s@.subrange(n - m, n as int) =~= suffix@);
    true
}

/// `s` without its leading `v` characters.
pub fn trim_leading_v(s: &str) -> (r: &str)
    ensures
        r@ == strip_leading_v(s@),
{
    let n = s.unicode_len();
    let mut k: usize = 0;
    assert(s@.subrange(0, n as int) =~= s@);
    while k < n && s.get_char(k) == 'v'
        invariant
            n == s@.len(),
            k <= n,
            strip_leading_v(s@) == strip_leading_v(s@.subrange(k as int, n as int)),
        decreases n - k,
    {
        assert(s@.subrange(k as int, n as int).drop_first() =~= s@.subrange(k + 1, n as int));
        k += 1;
    }
    s.substring_char(k, n)
}

/// Index of the first installer among `assets`.
fn find_installer(assets: &Vec<GitHubAsset>) -> (r: Option<usize>)
    ensures
        match r {
            Some(k) => k < assets@.len() && first_installer(assets@) == Some(
                assets@[k as int].browser_download_url@,
            ),
            None => first_installer(assets@) is None,
        },
{
    let n = assets.len();
    let mut i: usize = 0;
    assert(assets@.skip(0) =~= assets@);
    while i < n
        invariant
            n == assets@.len(),
            i <= n,
            first_installer(assets@) == first_installer(assets@.skip(i as int)),
        decreases n - i,
    {
        let asset = &assets[i];
        assert(assets@.skip(i as int)[0] == assets@[i as int]);
        if ends_with(asset.name.as_str(), ".zip") || ends_with(asset.name.as_str(), ".exe") {
            return Some(i);
        }
        assert(assets@.skip(i as int).drop_first() =~= assets@.skip(i + 1));
        i += 1;
    }
    assert(assets@.skip(n as int).len() == 0);
    None
}

/// Checks for and remembers newer releases of this program.
#[derive(Debug)]
pub struct Updater {
    update_info: UpdateInfo,
}

impl Clone for Updater {
    fn clone(&self) -> (r: Self)
        ensures
            r == *self,
    {
        Updater { update_info: self.update_info.clone() }
    }
}

impl Updater {
    /// The update information kept so far.
    pub closed spec fn spec_info(&self) -> UpdateInfo {
        self.update_info
    }

    /// An updater that has not checked yet.
    pub fn new() -> (r: Self)
        ensures
            r.spec_info().current_version@ == CURRENT_VERSION@,
            r.spec_info().latest_version@ == CURRENT_VERSION@,
            !r.spec_info().update_available,
            r.spec_info().download_url@.len() == 0,
    {
        Updater { update_info: UpdateInfo::default() }
    }

    /// Whether `latest` is a later version than `current`.
    pub fn is_newer_version(&self, current: &str, latest: &str) -> (r: bool)
        ensures
            r == spec_is_newer(current@, latest@),
    {
        let c = version_parts_of(current);
        let l = version_parts_of(latest);
        let (c0, c1, c2) = (part_at(&c, 0), part_at(&c, 1), part_at(&c, 2));
        let (l0, l1, l2) = (part_at(&l, 0), part_at(&l, 1), part_at(&l, 2));
        if l0 != c0 {
            l0 > c0
        } else if l1 != c1 {
            l1 > c1
        } else {
            l2 > c2
        }
    }

    /// Takes in the outcome of fetching the latest release. On success the
    /// latest version becomes the release's tag without its leading `v`,
    /// an update is available when that is newer than this build, and the
    /// download address becomes that of the first installer asset, if the
    /// release has one. A failed fetch leaves everything as it was.
    pub fn check_for_updates(&mut self, fetched: Result<GitHubRelease, String>) -> (r: Result<
        UpdateInfo,
        String,
    >)
        ensures
            match fetched {
                Ok(release) => {
                    let latest = strip_leading_v(release.tag_name@);
                    &&& final(self).spec_info().current_version == old(
                        self,
                    ).spec_info().current_version
                    &&& final(self).spec_info().latest_version@ == latest
                    &&& final(self).spec_info().update_available == spec_is_newer(
                        CURRENT_VERSION@,
                        latest,
                    )
                    &&& final(self).spec_info().download_url@ == match first_installer(
                        release.assets@,
                    ) {
                        Some(url) => url,
                        None => old(self).spec_info().download_url@,
                    }
                    &&& r == Ok::<UpdateInfo, String>(final(self).spec_info())
                },
                Err(e) => {
                    &&& *final(self) == *old(self)
                    &&& r is Err
                    &&& r->Err_0@ == "Failed to check for updates: "@ + e@
                },
            },
    {
        match fetched {
            Ok(release) => {
                let latest = trim_leading_v(release.tag_name.as_str());
                self.update_info.latest_version = String::from_str(latest);
                self.update_info.update_available = self.is_newer_version(CURRENT_VERSION, latest);
                match find_installer(&release.assets) {
                    Some(k) => {
                        self.update_info.download_url = release.assets[k].browser_download_url.clone();
                    },
                    None => {},
                }
                Ok(self.update_info.clone())
            },
            Err(e) => {
                let mut message = String::from_str("Failed to check for updates: ");
                message.append(e.as_str());
                Err(message)
            },
        }
    }

    /// The update information kept so far.
    pub fn get_update_info(&self) -> (r: &UpdateInfo)
        ensures
            *r == self.spec_info(),
    {
        &self.update_info
    }
}

} // verus!
