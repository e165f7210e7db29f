//! Building a job record from the pages a PCL interpreter rendered.
//!
//! Rendering and reading the page images happen outside the library; it
//! receives each page as its pixels and decides which pages are in colour.
use vstd::prelude::*;
use crate::job::{Color, Duplex, Job, Orientation, Size};
use crate::text::push_char;

verus! {

/// The colour channels of one pixel.
#[derive(Debug, Clone, Copy, PartialEq, Eq, Structural)]
pub struct Rgb {
    pub r: u8,
    pub g: u8,
    pub b: u8,
}

/// A rendered page: its pixels in any order.
#[derive(Debug, Clone, PartialEq)]
pub struct PageImage {
    pub pixels: Vec<Rgb>,
}

/// A pixel is grey when its three channels agree.
pub open spec fn is_grey(p: Rgb) -> bool {
    p.r == p.g && p.g == p.b
}

/// A page is in colour when some pixel is not grey.
pub open spec fn has_color(pixels: Seq<Rgb>) -> bool {
    exists|i: int| 0 <= i < pixels.len() && !is_grey(#[trigger] pixels[i])
}

/// Whether a page is in colour: some pixel whose channels differ.
pub fn is_color(img: &PageImage) -> (r: bool)
    ensures
        r == has_color(img.pixels@),
{
    let n = img.pixels.len();
    let mut i: usize = 0;
    while i < n
        invariant
            n == img.pixels@.len(),
            i <= n,
            forall|k: int| 0 <= k < i ==> is_grey(#[trigger] img.pixels@[k]),
        decreases n - i,
    {
        let p = img.pixels[i];
        if p.r != p.g || p.g != p.b {
            assert(!is_grey(img.pixels@[i as int]));
            return true;
        }
        i = i + 1;
    }
    false
}

/// Which pages are in colour, in page order.
pub open spec fn color_flags(pages: Seq<PageImage>) -> Seq<bool> {
    pages.map_values(|p: PageImage| has_color(p.pixels@))
}

/// How many of the flags are set.
pub open spec fn count_set(flags: Seq<bool>) -> nat
    decreases flags.len(),
{
    if flags.len() == 0 {
        0
    } else {
        count_set(flags.drop_last()) + if flags.last() {
            1nat
        } else {
            0nat
        }
    }
}

/// The colour map of a job: `1` for a colour page, `0` for any other.
pub open spec fn color_map_of(flags: Seq<bool>) -> Seq<char> {
    flags.map_values(|f: bool| if f { '1' } else { '0' })
}

/// No more flags are set than there are flags.
pub proof fn lemma_count_set_bound(flags: Seq<bool>)
    ensures
        count_set(flags) <= flags.len(),
    decreases flags.len(),
{
    if flags.len() > 0 {
        lemma_count_set_bound(flags.drop_last());
    }
}

/// No flag is set exactly when the count is zero.
pub proof fn lemma_count_set_zero(flags: Seq<bool>)
    ensures
        (count_set(flags) == 0) <==> (forall|i: int| 0 <= i < flags.len() ==> !#[trigger] flags[i]),
    decreases flags.len(),
{
    if flags.len() > 0 {
        lemma_count_set_zero(flags.drop_last());
        assert forall|i: int| 0 <= i < flags.len() - 1 implies flags.drop_last()[i] == flags[i] by {}
    }
}

/// `job` holds the page statistics of `flags` and the given fields.
pub open spec fn job_from_flags(
    job: Job,
    flags: Seq<bool>,
    name: Seq<char>,
    copies: u32,
    paper_size: Size,
    direction: Orientation,
    duplex: Duplex,
) -> bool {
    &&& job.id == 0
    &&& job.name@ == name
    &&& job.number == flags.len()
    &&& job.color_pages == count_set(flags)
    &&& job.bw_pages == flags.len() - count_set(flags)
    &&& job.color_map@ == color_map_of(flags)
    &&& job.color == (if count_set(flags) == 0 {
        Color::BW
    } else {
        Color::COLOR
    })
    &&& job.copies == copies
    &&& job.paper_size == paper_size
    &&& job.direction == direction
    &&& job.duplex == duplex
}

/// A PCL interpreter that renders into a directory of temporary files.
pub struct GhostPCL {
    pub temp_dir: String,
}

impl GhostPCL {
    /// The job for the rendered `pages`: one page per image, a page in
    /// colour when one of its pixels is, and the job in colour when one of
    /// its pages is. Name, copies, paper size, orientation and duplex mode
    /// are the given ones.
    pub fn job_from_pages(
        pages: &Vec<PageImage>,
        name: String,
        copies: u32,
        paper_size: Size,
        direction: Orientation,
        duplex: Duplex,
    ) -> (job: Job)
        requires
            pages@.len() <= u32::MAX,
        ensures
            job_from_flags(job, color_flags(pages@), name@, copies, paper_size, direction, duplex),
    {
        let n = pages.len();
        let ghost flags = color_flags(pages@);
        let mut color_map = String::new();
        let mut color_pages: u32 = 0;
        let mut i: usize = 0;
        while i < n
            invariant
                n == pages@.len(),
                n <= u32::MAX,
                i <= n,
                flags == color_flags(pages@),
                color_pages == count_set(flags.take(i as int)),
                color_pages <= i,
                color_map@ == color_map_of(flags.take(i as int)),
            decreases n - i,
        {
            let c = is_color(&pages[i]);
            assert(flags.take(i + 1).drop_last() =~= flags.take(i as int));
            assert(flags[i as int] == c);
            assert(color_map_of(flags.take(i + 1)) =~= color_map_of(flags.take(i as int)).push(
                if c {
                    '1'
                } else {
                    '0'
                },
            ));
            if c {
                push_char(&mut color_map, '1');
                color_pages = color_pages + 1;
            } else {
                push_char(&mut color_map, '0');
            }
            i = i + 1;
        }
        assert(flags.take(n as int) =~= flags);
        let number: u32 = n as u32;
        Job {
            id: 0,
            name,
            color: if color_pages == 0 {
                Color::BW
            } else {
                Color::COLOR
            },
            bw_pages: number - color_pages,
            color_pages,
            color_map,
            number,
            copies,
            paper_size,
            direction,
            duplex,
        }
    }

    /// The job for the rendered `pages`, named `name` (the local time at
    /// which the job was read, which the caller supplies), with the
    /// statistics `job_from_pages` gives.
    pub fn get_job(
        &self,
        pages: &Vec<PageImage>,
        name: String,
        copies: u32,
        paper_size: Size,
        direction: Orientation,
        duplex: Duplex,
    ) -> (job: Job)
        requires
            pages@.len() <= u32::MAX,
        ensures
            job_from_flags(job, color_flags(pages@), name@, copies, paper_size, direction, duplex),
    {
        Self::job_from_pages(pages, name, copies, paper_size, direction, duplex)
    }
}

/// Page statistics add up: black-and-white and colour pages make up all
/// pages, the colour map has one entry per page, and the job is in colour
/// exactly when some page is.
pub proof fn law_page_statistics(flags: Seq<bool>)
    ensures
        count_set(flags) <= flags.len(),
        (flags.len() - count_set(flags)) + count_set(flags) == flags.len(),
        color_map_of(flags).len() == flags.len(),
        forall|i: int| 0 <= i < flags.len() ==> (#[trigger] color_map_of(flags)[i] == '1') == flags[i],
        (count_set(flags) == 0) <==> (forall|i: int| 0 <= i < flags.len() ==> !#[trigger] flags[i]),
{
    lemma_count_set_bound(flags);
    lemma_count_set_zero(flags);
}

/// Whether page `i` of `pages` has a pixel whose three channels are not
/// all the same.
pub open spec fn page_has_tinted_pixel(pages: Seq<PageImage>, i: int) -> bool {
    exists|k: int|
        0 <= k < pages[i].pixels@.len() && {
            let p = #[trigger] pages[i].pixels@[k];
            p.r != p.g || p.g != p.b
        }
}

/// The colour of a job built from rendered pages follows its pixels alone:
/// the job is in colour exactly when some page, wherever it stands, has a
/// pixel whose channels differ; entry `i` of the colour map is `1` exactly
/// when page `i` has one and `0` otherwise; there is one entry and one
/// counted page per page, and colour and black-and-white pages add up to
/// all pages.
pub proof fn law_colour_follows_pixels(
    pages: Seq<PageImage>,
    job: Job,
    name: Seq<char>,
    copies: u32,
    paper_size: Size,
    direction: Orientation,
    duplex: Duplex,
)
    requires
        job_from_flags(job, color_flags(pages), name, copies, paper_size, direction, duplex),
    ensures
        job.color == Color::COLOR <==> exists|i: int|
            0 <= i < pages.len() && #[trigger] page_has_tinted_pixel(pages, i),
        job.color == Color::BW <==> forall|i: int|
            0 <= i < pages.len() ==> !#[trigger] page_has_tinted_pixel(pages, i),
        job.number == pages.len(),
        job.color_map@.len() == pages.len(),
        forall|i: int|
            0 <= i < pages.len() ==> (#[trigger] job.color_map@[i] == '1'
                <==> page_has_tinted_pixel(pages, i)),
        forall|i: int|
            0 <= i < pages.len() ==> (#[trigger] job.color_map@[i] == '0'
                <==> !page_has_tinted_pixel(pages, i)),
        job.bw_pages + job.color_pages == job.number,
{
    let flags = color_flags(pages);
    lemma_count_set_zero(flags);
    lemma_count_set_bound(flags);
    assert forall|i: int| 0 <= i < pages.len() implies flags[i] == #[trigger] page_has_tinted_pixel(
        pages,
        i,
    ) by {
        if flags[i] {
            let k = choose|k: int|
                0 <= k < pages[i].pixels@.len() && !is_grey(#[trigger] pages[i].pixels@[k]);
            assert(0 <= k < pages[i].pixels@.len() && {
                let p = pages[i].pixels@[k];
                p.r != p.g || p.g != p.b
            });
        }
        if page_has_tinted_pixel(pages, i) {
            let k = choose|k: int|
                0 <= k < pages[i].pixels@.len() && {
                    let p = #[trigger] pages[i].pixels@[k];
                    p.r != p.g || p.g != p.b
                };
            assert(!is_grey(pages[i].pixels@[k]));
        }
    }
    if job.color == Color::COLOR {
        let i = choose|i: int| 0 <= i < flags.len() && #[trigger] flags[i];
        assert(page_has_tinted_pixel(pages, i));
    }
}

} // verus!
