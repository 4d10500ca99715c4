use vstd::prelude::*;

verus! {

/// The part of a video mode line that mode selection reads: its visible
/// width and height in pixels.
#[derive(Clone, Copy, Debug, PartialEq, Eq)]
pub struct VideoMode {
    pub hdisplay: u16,
    pub vdisplay: u16,
}

/// Squared euclidean distance between the requested size and a mode's size.
pub open spec fn mode_distance(width: int, height: int, mode: VideoMode) -> int {
    (width - mode.hdisplay) * (width - mode.hdisplay) + (height - mode.vdisplay) * (height
        - mode.vdisplay)
}

/// Every mode that is present lies close enough to the requested size for its
/// distance to be computed in 32-bit signed arithmetic.
pub open spec fn distances_fit(width: int, height: int, modes: Seq<Option<VideoMode>>) -> bool {
    forall|j: int|
        0 <= j < modes.len() && #[trigger] modes[j] is Some ==> mode_distance(
            width,
            height,
            modes[j]->0,
        ) <= i32::MAX
}

/// A mode can be chosen when it is present and strictly closer than the
/// largest 32-bit distance, the starting bound of the search.
pub open spec fn selectable(width: int, height: int, modes: Seq<Option<VideoMode>>, i: int) -> bool {
    &&& 0 <= i < modes.len()
    &&& modes[i] is Some
    &&& mode_distance(width, height, modes[i]->0) < i32::MAX
}

pub open spec fn has_selectable_mode(
    width: int,
    height: int,
    modes: Seq<Option<VideoMode>>,
) -> bool {
    exists|i: int| selectable(width, height, modes, i)
}

/// `i` is the nearest present mode, and no earlier present mode is as near.
pub open spec fn is_best_mode(width: int, height: int, modes: Seq<Option<VideoMode>>, i: int) -> bool {
    &&& selectable(width, height, modes, i)
    &&& forall|j: int|
        0 <= j < modes.len() && #[trigger] modes[j] is Some ==> mode_distance(
            width,
            height,
            modes[i]->0,
        ) <= mode_distance(width, height, modes[j]->0)
    &&& forall|j: int|
        0 <= j < i && #[trigger] modes[j] is Some ==> mode_distance(width, height, modes[i]->0)
            < mode_distance(width, height, modes[j]->0)
}

/// The index that the search settles on: the best mode when one can be
/// chosen, index 0 otherwise.
pub open spec fn chosen_index(width: int, height: int, modes: Seq<Option<VideoMode>>, i: int) -> bool {
    if has_selectable_mode(width, height, modes) {
        is_best_mode(width, height, modes, i)
    } else {
        i == 0
    }
}

proof fn lemma_square_nonneg(x: int)
    ensures
        x * x >= 0,
{
    assert(x * x >= 0) by (nonlinear_arith);
}

proof fn lemma_sum_of_squares_zero(x: int, y: int)
    ensures
        x * x + y * y >= 0,
        x * x + y * y == 0 <==> (x == 0 && y == 0),
{
    assert(x * x + y * y >= 0 && (x * x + y * y == 0 <==> (x == 0 && y == 0))) by (nonlinear_arith);
}

fn squared_distance(width: i32, height: i32, mode: &VideoMode) -> (d: i64)
    requires
        mode_distance(width as int, height as int, *mode) <= i32::MAX,
    ensures
        d == mode_distance(width as int, height as int, *mode),
{
    let dx: i64 = width as i64 - mode.hdisplay as i64;
    let dy: i64 = height as i64 - mode.vdisplay as i64;
    proof {
        lemma_square_nonneg(dx as int);
        lemma_square_nonneg(dy as int);
    }
    dx * dx + dy * dy
}

/// Index of the mode nearest to `width` x `height`; the first of equally near
/// modes wins, absent modes are skipped, and index 0 stands when no mode lies
/// nearer than the largest 32-bit distance.
pub fn best_mode_index(width: i32, height: i32, modes: &Vec<Option<VideoMode>>) -> (r: usize)
    requires
        distances_fit(width as int, height as int, modes@),
    ensures
        chosen_index(width as int, height as int, modes@, r as int),
        has_selectable_mode(width as int, height as int, modes@) ==> {
            &&& r < modes@.len()
            &&& modes@[r as int] is Some
            &&& forall|j: int|
                0 <= j < modes@.len() && #[trigger] modes@[j] is Some ==> (width
                    - modes@[r as int]->0.hdisplay) * (width - modes@[r as int]->0.hdisplay) + (
                height - modes@[r as int]->0.vdisplay) * (height - modes@[r as int]->0.vdisplay)
                    <= (width - modes@[j]->0.hdisplay) * (width - modes@[j]->0.hdisplay) + (height
                    - modes@[j]->0.vdisplay) * (height - modes@[j]->0.vdisplay)
            &&& forall|j: int|
                0 <= j < r && #[trigger] modes@[j] is Some ==> (width - modes@[r as int]->0.hdisplay)
                    * (width - modes@[r as int]->0.hdisplay) + (height
                    - modes@[r as int]->0.vdisplay) * (height - modes@[r as int]->0.vdisplay) < (
                width - modes@[j]->0.hdisplay) * (width - modes@[j]->0.hdisplay) + (height
                    - modes@[j]->0.vdisplay) * (height - modes@[j]->0.vdisplay)
        },
        !has_selectable_mode(width as int, height as int, modes@) ==> r == 0,
{
    let ghost w = width as int;
    let ghost h = height as int;
    let mut best: usize = 0;
    let mut best_match: i64 = 0x7fff_ffff;
    let n = modes.len();
    for i in 0..n
        invariant
            n == modes@.len(),
            w == width as int,
            h == height as int,
            distances_fit(w, h, modes@),
            best_match <= i32::MAX,
            best_match < i32::MAX ==> (best < i && selectable(w, h, modes@, best as int)
                && best_match == mode_distance(w, h, modes@[best as int]->0)),
            best_match == i32::MAX ==> best == 0,
            forall|j: int|
                0 <= j < i && #[trigger] modes@[j] is Some ==> best_match <= mode_distance(
                    w,
                    h,
                    modes@[j]->0,
                ),
            forall|j: int|
                0 <= j < best && #[trigger] modes@[j] is Some ==> best_match < mode_distance(
                    w,
                    h,
                    modes@[j]->0,
                ),
    {
        match &modes[i] {
            Some(m) => {
                assert(modes@[i as int] is Some);
                assert(*m == modes@[i as int]->0);
                let cur = squared_distance(width, height, m);
                if cur < best_match {
                    best_match = cur;
                    best = i;
                }
            },
            None => {},
        }
    }
    if best_match < 0x7fff_ffff {
        assert(is_best_mode(w, h, modes@, best as int));
        assert(has_selectable_mode(w, h, modes@));
    } else {
        assert(!has_selectable_mode(w, h, modes@)) by {
            if exists|k: int| selectable(w, h, modes@, k) {
                let k = choose|k: int| selectable(w, h, modes@, k);
                assert(modes@[k] is Some);
            }
        }
    }
    best
}

/// The size that stands after the search settled on index `i`: the size of
/// the mode there when it is present, the requested size otherwise.
pub open spec fn adopted_size(width: int, height: int, modes: Seq<Option<VideoMode>>, i: int) -> (
    int,
    int,
) {
    match modes[i] {
        Some(m) => (m.hdisplay as int, m.vdisplay as int),
        None => (width, height),
    }
}

/// Picks, among the mode lines that the server reported, the one nearest to
/// `width` x `height` and adopts its size. `status` is what the query for
/// the mode lines returned: zero means that it failed, and then nothing is
/// chosen and the size stays as it is.
pub fn get_best_video_mode(
    status: i32,
    modes: &Vec<Option<VideoMode>>,
    width: &mut i32,
    height: &mut i32,
) -> (r: Option<usize>)
    requires
        status != 0 ==> modes@.len() > 0 && distances_fit(
            *old(width) as int,
            *old(height) as int,
            modes@,
        ),
    ensures
        status == 0 ==> r is None && *final(width) == *old(width) && *final(height) == *old(height),
        status != 0 ==> (r matches Some(i) && i < modes@.len() && chosen_index(
            *old(width) as int,
            *old(height) as int,
            modes@,
            i as int,
        ) && (*final(width) as int, *final(height) as int) == adopted_size(
            *old(width) as int,
            *old(height) as int,
            modes@,
            i as int,
        )),
        status != 0 ==> (r matches Some(i) && (modes@[i as int] matches Some(m) ==> (*final(width)
            == m.hdisplay && *final(height) == m.vdisplay))),
        status != 0 ==> (r matches Some(i) && (modes@[i as int] is None ==> (*final(width)
            == *old(width) && *final(height) == *old(height)))),
{
    if status != 0 {
        let best = best_mode_index(*width, *height, modes);
        match &modes[best] {
            Some(m) => {
                *width = m.hdisplay as i32;
                *height = m.vdisplay as i32;
            },
            None => {},
        }
        return Some(best);
    }
    None
}

/// The search settles on one index only: whatever index meets the contract
/// of the search is the same.
pub proof fn lemma_chosen_index_unique(
    width: int,
    height: int,
    modes: Seq<Option<VideoMode>>,
    i: int,
    k: int,
)
    requires
        chosen_index(width, height, modes, i),
        chosen_index(width, height, modes, k),
    ensures
        i == k,
{
    if has_selectable_mode(width, height, modes) {
        if i < k {
            assert(modes[i] is Some);
        } else if k < i {
            assert(modes[k] is Some);
        }
    }
}

/// Adopting the chosen mode is a fixed point: searching again from the
/// adopted size settles on the same index, and adopting it leaves the size
/// unchanged.
pub proof fn lemma_chosen_mode_is_stable(
    width: int,
    height: int,
    modes: Seq<Option<VideoMode>>,
    i: int,
)
    requires
        0 <= i < modes.len(),
        modes[i] is Some,
        chosen_index(width, height, modes, i),
    ensures
        chosen_index(adopted_size(width, height, modes, i).0, adopted_size(width, height, modes, i).1, modes, i),
        adopted_size(
            adopted_size(width, height, modes, i).0,
            adopted_size(width, height, modes, i).1,
            modes,
            i,
        ) == adopted_size(width, height, modes, i),
{
    let m = modes[i]->0;
    let nw = m.hdisplay as int;
    let nh = m.vdisplay as int;
    lemma_sum_of_squares_zero(nw - m.hdisplay, nh - m.vdisplay);
    assert(mode_distance(nw, nh, m) == 0);
    assert forall|j: int| 0 <= j < modes.len() && #[trigger] modes[j] is Some implies mode_distance(
        nw,
        nh,
        m,
    ) <= mode_distance(nw, nh, modes[j]->0) by {
        let mj = modes[j]->0;
        lemma_sum_of_squares_zero(nw - mj.hdisplay, nh - mj.vdisplay);
    }
    assert forall|j: int| 0 <= j < i && #[trigger] modes[j] is Some implies mode_distance(nw, nh, m)
        < mode_distance(nw, nh, modes[j]->0) by {
        let mj = modes[j]->0;
        lemma_sum_of_squares_zero(nw - mj.hdisplay, nh - mj.vdisplay);
        if mode_distance(nw, nh, mj) == 0 {
            assert(mj.hdisplay == m.hdisplay && mj.vdisplay == m.vdisplay);
            assert(mode_distance(width, height, mj) == mode_distance(width, height, m));
            assert(has_selectable_mode(width, height, modes));
            assert(false);
        }
    }
    assert(selectable(nw, nh, modes, i));
    assert(is_best_mode(nw, nh, modes, i));
    assert(has_selectable_mode(nw, nh, modes));
}

/// A mode line added at the end that is absent, or no nearer than the chosen
/// mode, changes neither the choice nor the adopted size, as long as its
/// distance still fits in 32-bit arithmetic.
pub proof fn lemma_appending_farther_mode_keeps_choice(
    width: int,
    height: int,
    modes: Seq<Option<VideoMode>>,
    extra: Option<VideoMode>,
    b: int,
)
    requires
        modes.len() > 0,
        chosen_index(width, height, modes, b),
        distances_fit(width, height, modes.push(extra)),
        extra is None || (modes[b] is Some && mode_distance(width, height, extra->0)
            >= mode_distance(width, height, modes[b]->0)),
    ensures
        chosen_index(width, height, modes.push(extra), b),
        adopted_size(width, height, modes.push(extra), b) == adopted_size(width, height, modes, b),
{
    let longer = modes.push(extra);
    let n = modes.len() as int;
    assert(longer[n] == extra);
    assert forall|j: int| 0 <= j < n implies #[trigger] longer[j] == modes[j] by {}
    if has_selectable_mode(width, height, modes) {
        assert(selectable(width, height, longer, b));
        assert forall|j: int| 0 <= j < longer.len() && #[trigger] longer[j] is Some implies mode_distance(
            width,
            height,
            longer[b]->0,
        ) <= mode_distance(width, height, longer[j]->0) by {
            if j < n {
                assert(modes[j] is Some);
            }
        }
        assert forall|j: int| 0 <= j < b && #[trigger] longer[j] is Some implies mode_distance(
            width,
            height,
            longer[b]->0,
        ) < mode_distance(width, height, longer[j]->0) by {
            assert(modes[j] is Some);
        }
        assert(is_best_mode(width, height, longer, b));
        assert(has_selectable_mode(width, height, longer));
    } else {
        assert(!has_selectable_mode(width, height, longer)) by {
            if exists|k: int| selectable(width, height, longer, k) {
                let k = choose|k: int| selectable(width, height, longer, k);
                if k < n {
                    assert(selectable(width, height, modes, k));
                } else {
                    assert(longer[k] is Some);
                    assert(modes[b] is Some);
                    assert(!selectable(width, height, modes, b));
                    assert(mode_distance(width, height, modes[b]->0) >= i32::MAX);
                }
                assert(false);
            }
        }
    }
}

/// The rank of a mode is its squared euclidean distance from the requested
/// size: the squared horizontal offset plus the squared vertical offset.
pub proof fn lemma_distance_is_squared_euclidean(width: int, height: int, mode: VideoMode)
    ensures
        mode_distance(width, height, mode) == (width - mode.hdisplay) * (width - mode.hdisplay) + (
        height - mode.vdisplay) * (height - mode.vdisplay),
        mode_distance(width, height, mode) >= 0,
        mode_distance(width, height, mode) == 0 <==> (mode.hdisplay == width && mode.vdisplay
            == height),
{
    lemma_sum_of_squares_zero(width - mode.hdisplay, height - mode.vdisplay);
}

/// The best mode is nearest in squared euclidean distance: no present mode
/// has a smaller sum of squared offsets, and every earlier present mode has a
/// larger one.
pub proof fn lemma_best_mode_is_nearest(
    width: int,
    height: int,
    modes: Seq<Option<VideoMode>>,
    i: int,
    j: int,
)
    requires
        is_best_mode(width, height, modes, i),
        0 <= j < modes.len(),
        modes[j] is Some,
    ensures
        modes[i] is Some,
        (width - modes[i]->0.hdisplay) * (width - modes[i]->0.hdisplay) + (height
            - modes[i]->0.vdisplay) * (height - modes[i]->0.vdisplay) <= (width
            - modes[j]->0.hdisplay) * (width - modes[j]->0.hdisplay) + (height
            - modes[j]->0.vdisplay) * (height - modes[j]->0.vdisplay),
        j < i ==> (width - modes[i]->0.hdisplay) * (width - modes[i]->0.hdisplay) + (height
            - modes[i]->0.vdisplay) * (height - modes[i]->0.vdisplay) < (width
            - modes[j]->0.hdisplay) * (width - modes[j]->0.hdisplay) + (height
            - modes[j]->0.vdisplay) * (height - modes[j]->0.vdisplay),
{
    lemma_distance_is_squared_euclidean(width, height, modes[i]->0);
    lemma_distance_is_squared_euclidean(width, height, modes[j]->0);
}

/// Adopting a present mode sets the size to that mode's size, whatever size
/// was requested; adopting an absent entry keeps the requested size.
pub proof fn lemma_adopted_size_is_mode_size(
    width: int,
    height: int,
    modes: Seq<Option<VideoMode>>,
    i: int,
)
    ensures
        modes[i] is Some ==> adopted_size(width, height, modes, i) == (
            modes[i]->0.hdisplay as int,
            modes[i]->0.vdisplay as int,
        ),
        modes[i] is None ==> adopted_size(width, height, modes, i) == (width, height),
{
}

} // verus!
