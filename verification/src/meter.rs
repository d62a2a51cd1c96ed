use vstd::prelude::*;

verus! {

/// Bytes in the label at the sharp end of the meter, `sharp ♯`; the label
/// is placed by its byte length.
pub const SHARP_LABEL_WIDTH: u16 = 9;

/// The cents markers under the meter, left to right: `-50`, `-25`, `0`,
/// `+25`, `+50`, with their widths in bytes.
pub const MARKER_WIDTHS: [u16; 5] = [3, 3, 1, 3, 3];

/// Where the parts of the tuning meter go inside an area `width` columns
/// wide. Columns count from the area's left edge; the meter's track starts
/// at column 1 and is `meter_width` columns long.
#[derive(Debug, Clone, Copy)]
pub struct MeterLayout {
    pub width: u16,
    pub meter_width: u16,
    /// Offset of the track's middle from the track's start.
    pub center: u16,
    pub flat_label_col: u16,
    pub sharp_label_col: u16,
    pub center_label_col: u16,
    pub marker_cols: [u16; 5],
}

/// The marker positions along the track before they are kept inside the
/// area: the two ends, the quarter points and the middle.
pub open spec fn marker_position(meter_width: int, center: int, k: int) -> int {
    if k == 0 {
        0
    } else if k == 1 {
        center / 2
    } else if k == 2 {
        center
    } else if k == 3 {
        center + center / 2
    } else {
        meter_width - 3
    }
}

pub open spec fn min(a: int, b: int) -> int {
    if a < b {
        a
    } else {
        b
    }
}

/// The column of a marker label `label_width` bytes wide at position `pos`
/// along the track, moved left so that the label ends inside the area.
fn marker_col(pos: u16, label_width: u16, width: u16) -> (r: u16)
    requires
        10 <= width,
        label_width <= 3,
        pos <= width,
    ensures
        r == 1 + min(pos as int, width - 1 - label_width),
{
    let limit = width - 1 - label_width;
    let x = if pos < limit {
        pos
    } else {
        limit
    };
    1 + x
}

impl MeterLayout {
    /// The layout of the meter in an area of `width` by `height`; `None`
    /// (nothing is drawn) when the area is narrower than 10 or lower than 3.
    pub open spec fn spec_new(width: u16, height: u16) -> Option<MeterLayout> {
        if width < 10 || height < 3 {
            None
        } else {
            let mw = width - 2;
            let c = mw / 2;
            Some(
                MeterLayout {
                    width,
                    meter_width: mw as u16,
                    center: c as u16,
                    flat_label_col: 1,
                    sharp_label_col: (width - 1 - SHARP_LABEL_WIDTH) as u16,
                    center_label_col: (1 + c) as u16,
                    marker_cols: [
                        (1 + min(marker_position(mw, c, 0), width - 1 - 3)) as u16,
                        (1 + min(marker_position(mw, c, 1), width - 1 - 3)) as u16,
                        (1 + min(marker_position(mw, c, 2), width - 1 - 1)) as u16,
                        (1 + min(marker_position(mw, c, 3), width - 1 - 3)) as u16,
                        (1 + min(marker_position(mw, c, 4), width - 1 - 3)) as u16,
                    ],
                },
            )
        }
    }

    pub fn new(width: u16, height: u16) -> (r: Option<MeterLayout>)
        ensures
            r == Self::spec_new(width, height),
    {
        if width < 10 || height < 3 {
            return None;
        }
        let meter_width = width - 2;
        let center = meter_width / 2;
        let marker_cols: [u16; 5] = [
            marker_col(0, 3, width),
            marker_col(center / 2, 3, width),
            marker_col(center, 1, width),
            marker_col(center + center / 2, 3, width),
            marker_col(meter_width - 3, 3, width),
        ];
        Some(
            MeterLayout {
                width,
                meter_width,
                center,
                flat_label_col: 1,
                sharp_label_col: width - 1 - SHARP_LABEL_WIDTH,
                center_label_col: 1 + center,
                marker_cols,
            },
        )
    }

    /// The column of the track at offset `x` along it.
    pub open spec fn track_col(self, x: int) -> int {
        1 + x
    }

    /// Whether offset `x` along the track is its middle, drawn as a
    /// vertical bar; the rest of the track is a horizontal line.
    pub fn is_center(&self, x: u16) -> (r: bool)
        ensures
            r == (x == self.center),
    {
        x == self.center
    }

    /// The column of the needle, given its offset along the track: kept on
    /// the track.
    pub fn needle_col(&self, offset: usize) -> (r: u16)
        requires
            1 <= self.meter_width,
        ensures
            r == 1 + min(offset as int, self.meter_width - 1),
    {
        let last = (self.meter_width - 1) as usize;
        let x = if offset < last {
            offset
        } else {
            last
        };
        (1 + x) as u16
    }
}

/// Everything the meter draws stays inside the area: labels, track, needle
/// and markers end at or before its right edge.
pub proof fn lemma_meter_inside(width: u16, height: u16, k: int, offset: int)
    requires
        MeterLayout::spec_new(width, height) is Some,
        0 <= k < 5,
        0 <= offset,
    ensures
        ({
            let l = MeterLayout::spec_new(width, height).unwrap();
            &&& l.sharp_label_col + SHARP_LABEL_WIDTH < width
            &&& l.track_col(l.meter_width as int) < width
            &&& l.center_label_col < width
            &&& l.marker_cols@[k] + MARKER_WIDTHS@[k] <= width
            &&& l.marker_cols@[k] >= 1
            &&& 1 + min(offset, l.meter_width - 1) < width
        }),
{
}

} // verus!
