//! One LED-matrix eye panel: its static configuration, the per-tick gaze
//! and blink state, the scene it renders, and the packet it transmits.

use vstd::prelude::*;
use crate::blink::BlinkController;
use crate::encode::{
    body_len, body_pos, clamp_luma_spec, encode_body, lemma_body_at_serp, lemma_body_prefix_len,
    lemma_body_separator, serp_pos, ROW_SEPARATOR,
};
use crate::gaze::{render_offset, render_offset_spec, GazeSmoother};
use crate::gray::GrayImage;
use crate::resample::{resampled_of, resize_gray};
use crate::settings::{Rotation, BLINK_MEAN_INTERVAL_MS, BLINK_MS_STAY_CLOSED, BLINK_MS_TO_CLOSE,
    BLINK_MS_TO_OPEN, COORD_LIMIT, GAZE_GAIN_DEN, GAZE_GAIN_NUM, UPSCALE};
use crate::slot::FrameSlot;

verus! {

/// Largest native resolution a panel may configure.
pub const MAX_REZ: u32 = 256;

/// Largest dimension accepted for a captured frame.
pub const MAX_FRAME_DIM: usize = 65536;

/// Why a panel configuration is rejected at startup.
#[derive(Clone, Copy, PartialEq, Eq, Structural, Debug)]
pub enum ConfigError {
    /// The native resolution is zero or beyond the supported maximum.
    BadResolution,
    /// The reference span of the gaze conversion is zero.
    DegenerateSpan,
    /// The panel center lies outside the virtual canvas.
    CenterOutOfCanvas,
}

/// Static configuration of one panel.
#[derive(Clone, Copy, Debug)]
pub struct PanelConfig {
    /// Native resolution: the panel's LED grid is `rez` by `rez`.
    pub rez: u32,
    /// Panel center on the shared virtual canvas, x.
    pub center_x: i64,
    /// Panel center on the shared virtual canvas, y.
    pub center_y: i64,
    /// Reference span of the gaze conversion: the distance at which the
    /// pupil reaches its maximum travel.
    pub span: u32,
    /// Quarter-turn applied to each frame before encoding, matching how the
    /// panel is mounted.
    pub rotation: Rotation,
}

impl PanelConfig {
    /// The configuration a panel accepts at startup.
    pub open spec fn valid(self) -> bool {
        &&& 1 <= self.rez <= MAX_REZ
        &&& 1 <= self.span
        &&& -COORD_LIMIT <= self.center_x <= COORD_LIMIT
        &&& -COORD_LIMIT <= self.center_y <= COORD_LIMIT
    }

    /// Side length of the upscaled offscreen render target.
    pub open spec fn fbo_dim(self) -> u32 {
        (self.rez * UPSCALE) as u32
    }

    /// Radius of the pupil ellipse in render space.
    pub open spec fn pupil_radius(self) -> u32 {
        (self.fbo_dim() / 4) as u32
    }

    /// Farthest the pupil center may travel from the surface center.
    pub open spec fn max_travel(self) -> u32 {
        (self.fbo_dim() / 2) as u32
    }
}

/// The draw commands for one eye frame, in render-space coordinates of the
/// panel's offscreen surface (origin at the surface center): a white pupil
/// ellipse over a black background, covered by two black eyelid rectangles
/// whose height grows with the blink closure.
#[derive(Clone, Copy, PartialEq, Eq, Structural, Debug)]
pub struct EyeScene {
    /// Pupil center, x.
    pub pupil_x: i64,
    /// Pupil center, y.
    pub pupil_y: i64,
    /// Pupil radius.
    pub pupil_radius: u32,
    /// Width of each eyelid rectangle.
    pub lid_width: u32,
    /// Height of each eyelid rectangle.
    pub lid_height: u32,
    /// Center of the upper eyelid rectangle, y.
    pub upper_lid_y: i64,
    /// Center of the lower eyelid rectangle, y.
    pub lower_lid_y: i64,
}

/// One eye panel: configuration, smoothing and blink state, and the most
/// recently captured frame of its offscreen surface.
pub struct Panel {
    /// Static configuration.
    pub config: PanelConfig,
    /// Damped follower of the gaze target.
    pub gaze: GazeSmoother,
    /// Eyelid state machine.
    pub blink: BlinkController,
    /// Latest completed capture of the offscreen surface.
    pub slot: FrameSlot,
    /// The raw target used last tick, held when no new target arrives.
    pub last_target_x: i64,
    /// See `last_target_x`.
    pub last_target_y: i64,
    /// Current pupil offset from the surface center, x.
    pub eye_x: i64,
    /// Current pupil offset from the surface center, y.
    pub eye_y: i64,
}

impl Panel {
    /// Configuration is valid, all component state is well-formed, any
    /// captured frame has usable dimensions, the held target lies on the
    /// canvas, and the pupil offset stays within the panel's maximum
    /// travel.
    pub open spec fn wf(self) -> bool {
        &&& self.config.valid()
        &&& self.gaze.wf()
        &&& self.blink.wf()
        &&& match self.slot.spec_frame() {
            Some(img) => {
                &&& img.wf()
                &&& 1 <= img.spec_rows() <= MAX_FRAME_DIM
                &&& 1 <= img.spec_cols() <= MAX_FRAME_DIM
            },
            None => true,
        }
        &&& -COORD_LIMIT <= self.last_target_x <= COORD_LIMIT
        &&& -COORD_LIMIT <= self.last_target_y <= COORD_LIMIT
        &&& self.eye_x * self.eye_x + self.eye_y * self.eye_y
            <= self.config.max_travel() * self.config.max_travel()
    }

    /// Builds a panel from its configuration, failing fast on a malformed
    /// one: a resolution outside `[1, MAX_REZ]` is rejected first, then a
    /// zero reference span, then a center off the canvas.
    pub fn new(config: PanelConfig) -> (result: Result<Panel, ConfigError>)
        ensures
            match result {
                Ok(p) => {
                    &&& config.valid()
                    &&& p.wf()
                    &&& p.config == config
                    &&& p.slot.spec_frame() is None
                    &&& p.blink.phase == crate::blink::BlinkPhase::Dormant
                    &&& p.blink.val == 0
                    &&& p.eye_x == 0 && p.eye_y == 0
                    &&& p.last_target_x == 0 && p.last_target_y == 0
                    &&& p.gaze.pos_x == 0 && p.gaze.pos_y == 0
                    &&& p.gaze.vel_x == 0 && p.gaze.vel_y == 0
                },
                Err(e) => {
                    &&& !config.valid()
                    &&& (e == ConfigError::BadResolution
                        <==> !(1 <= config.rez <= MAX_REZ))
                    &&& (e == ConfigError::DegenerateSpan
                        <==> (1 <= config.rez <= MAX_REZ && config.span == 0))
                    &&& (e == ConfigError::CenterOutOfCanvas
                        <==> (1 <= config.rez <= MAX_REZ && 1 <= config.span
                            && !(-COORD_LIMIT <= config.center_x <= COORD_LIMIT
                                && -COORD_LIMIT <= config.center_y <= COORD_LIMIT)))
                },
            },
    {
        if config.rez < 1 || config.rez > MAX_REZ {
            return Err(ConfigError::BadResolution);
        }
        if config.span == 0 {
            return Err(ConfigError::DegenerateSpan);
        }
        if config.center_x < -COORD_LIMIT || config.center_x > COORD_LIMIT
            || config.center_y < -COORD_LIMIT || config.center_y > COORD_LIMIT {
            return Err(ConfigError::CenterOutOfCanvas);
        }
        let panel = Panel {
            config,
            gaze: GazeSmoother::new(GAZE_GAIN_NUM, GAZE_GAIN_DEN),
            blink: BlinkController::new(BLINK_MS_TO_CLOSE, BLINK_MS_STAY_CLOSED, BLINK_MS_TO_OPEN,
                BLINK_MEAN_INTERVAL_MS),
            slot: FrameSlot::new(),
            last_target_x: 0,
            last_target_y: 0,
            eye_x: 0,
            eye_y: 0,
        };
        proof {
            assert(0 <= panel.config.max_travel() * panel.config.max_travel())
                by (nonlinear_arith);
        }
        Ok(panel)
    }

    /// The raw target this tick works toward: the new one if the gaze
    /// source produced a point, otherwise the previous one.
    pub open spec fn effective_target(self, target: Option<(i64, i64)>) -> (i64, i64) {
        match target {
            Some(t) => t,
            None => (self.last_target_x, self.last_target_y),
        }
    }

    /// Advances blink and gaze state one tick. `target` is the raw gaze
    /// point, if the gaze source saw one; absence holds the previous
    /// target. `now_ms` is the monotone clock and `draw` one uniformly
    /// random value for the blink trial. The new pupil offset follows the
    /// smoothed position and stays within the panel's maximum travel.
    pub fn update(&mut self, target: Option<(i64, i64)>, now_ms: u64, draw: u64)
        requires
            old(self).wf(),
            old(self).blink.last_ms <= now_ms,
            match target {
                Some(t) => -COORD_LIMIT <= t.0 <= COORD_LIMIT
                    && -COORD_LIMIT <= t.1 <= COORD_LIMIT,
                None => true,
            },
        ensures
            final(self).wf(),
            final(self).config == old(self).config,
            final(self).slot == old(self).slot,
            final(self).blink == old(self).blink.updated(now_ms as int, draw as int),
            ({
                let t = old(self).effective_target(target);
                &&& final(self).last_target_x == t.0
                &&& final(self).last_target_y == t.1
                &&& final(self).gaze == old(self).gaze.stepped(t.0 as int, t.1 as int)
            }),
            (final(self).eye_x as int, final(self).eye_y as int) == render_offset_spec(
                final(self).gaze.pos_x as int, final(self).gaze.pos_y as int,
                old(self).config.center_x as int, old(self).config.center_y as int,
                old(self).config.span as int, old(self).config.max_travel() as int),
    {
        let (tx, ty): (i64, i64) = match target {
            Some(t) => t,
            None => (self.last_target_x, self.last_target_y),
        };
        self.blink.update(now_ms, draw);
        self.gaze.update(tx, ty);
        self.last_target_x = tx;
        self.last_target_y = ty;
        let max_travel: u32 = self.config.rez * UPSCALE / 2;
        let (ox, oy): (i64, i64) = render_offset(self.gaze.pos_x, self.gaze.pos_y,
            self.config.center_x, self.config.center_y, self.config.span, max_travel);
        self.eye_x = ox;
        self.eye_y = oy;
    }

    /// The scene for this tick's render: pupil ellipse at the current
    /// offset with radius a quarter of the surface, and two eyelid
    /// rectangles whose height is the pupil radius scaled by the blink
    /// closure, placed symmetrically about the pupil.
    pub fn eye_scene(&self) -> (s: EyeScene)
        requires
            self.wf(),
        ensures
            s.pupil_x == self.eye_x,
            s.pupil_y == self.eye_y,
            s.pupil_radius == self.config.pupil_radius(),
            s.lid_width == 2 * self.config.pupil_radius(),
            s.lid_height == self.config.pupil_radius() * self.blink.val / 1000,
            s.upper_lid_y == self.eye_y + (self.config.pupil_radius() - s.lid_height / 2),
            s.lower_lid_y == self.eye_y - (self.config.pupil_radius() - s.lid_height / 2),
    {
        let eye_r: u32 = self.config.rez * UPSCALE / 4;
        proof {
            assert(eye_r * self.blink.val <= 192 * 1000) by (nonlinear_arith)
                requires
                    0 <= eye_r <= 192,
                    0 <= self.blink.val <= 1000,
            ;
            assert(eye_r * self.blink.val / 1000 <= eye_r) by (nonlinear_arith)
                requires
                    0 <= eye_r,
                    0 <= self.blink.val <= 1000,
            ;
        }
        let lid_height: u32 = eye_r * self.blink.val as u32 / 1000;
        let lid_offset: i64 = (eye_r - lid_height / 2) as i64;
        proof {
            lemma_travel_bound(self.eye_x as int, self.eye_y as int,
                self.config.max_travel() as int);
        }
        EyeScene {
            pupil_x: self.eye_x,
            pupil_y: self.eye_y,
            pupil_radius: eye_r,
            lid_width: 2 * eye_r,
            lid_height,
            upper_lid_y: self.eye_y + lid_offset,
            lower_lid_y: self.eye_y - lid_offset,
        }
    }

    /// Called when an asynchronous capture of this panel's offscreen
    /// surface completes: the frame replaces the previous one.
    pub fn capture_completed(&mut self, img: GrayImage)
        requires
            old(self).wf(),
            img.wf(),
            1 <= img.spec_rows() <= MAX_FRAME_DIM,
            1 <= img.spec_cols() <= MAX_FRAME_DIM,
        ensures
            final(self).wf(),
            final(self).slot.spec_frame() == Some(img),
            final(self).config == old(self).config,
            final(self).gaze == old(self).gaze,
            final(self).blink == old(self).blink,
            final(self).eye_x == old(self).eye_x,
            final(self).eye_y == old(self).eye_y,
            final(self).last_target_x == old(self).last_target_x,
            final(self).last_target_y == old(self).last_target_y,
    {
        self.slot.commit(img);
    }

    /// Luma that lands at `(r, c)` of this panel's native grid: the frame
    /// is downsampled to `rez` by `rez`, then turned by the configured
    /// rotation.
    pub open spec fn native_px(self, img: GrayImage, r: int, c: int) -> u8 {
        let rez = self.config.rez as int;
        let small = resampled_of(img.bytes(), img.spec_cols() as u32, img.spec_rows() as u32,
            self.config.rez, self.config.rez);
        small[GrayImage::src_row(self.config.rotation, rez, rez, r, c) * rez
            + GrayImage::src_col(self.config.rotation, rez, rez, r, c)]
    }

    /// The wire packet for the latest captured frame: `None` only when no
    /// capture has ever completed; otherwise the body encodes the frame
    /// downsampled to the native grid, rotated as mounted, clamped to the
    /// luma ceiling and serialized in serpentine row order with one
    /// separator byte between rows.
    pub fn serial_packet(&self) -> (out: Option<Vec<u8>>)
        requires
            self.wf(),
        ensures
            out is Some <==> self.slot.spec_frame() is Some,
            match (out, self.slot.spec_frame()) {
                (Some(body), Some(img)) => {
                    let rez = self.config.rez as int;
                    &&& body@.len() == body_len(rez, rez)
                    &&& forall|r: int, c: int|
                        0 <= r < rez && 0 <= c < rez
                            ==> body@[serp_pos(rez, r, c)]
                                == clamp_luma_spec(self.native_px(img, r, c))
                    &&& forall|r: int|
                        1 <= r < rez ==> body@[body_pos(rez, r, 0) - 1] == ROW_SEPARATOR
                },
                (None, None) => true,
                _ => false,
            },
    {
        let frame = self.slot.try_read();
        match frame {
            Option::None => None,
            Option::Some(img) => {
                let src_w: u32 = img.cols() as u32;
                let src_h: u32 = img.rows() as u32;
                let rez: u32 = self.config.rez;
                proof {
                    img.lemma_bytes_index();
                    assert(img.spec_rows() * img.spec_cols() == img.spec_cols() * img.spec_rows())
                        by (nonlinear_arith);
                }
                let raw = resize_gray(img.as_bytes(), src_w, src_h, rez, rez);
                proof {
                    assert(rez as usize * rez as usize == (rez * rez) as int)
                        by (nonlinear_arith)
                        requires
                            1 <= rez <= MAX_REZ,
                    ;
                }
                let small = GrayImage::from_raw(rez as usize, rez as usize, raw);
                let native = small.rotated(self.config.rotation);
                let body = encode_body(&native);
                proof {
                    let rezi = rez as int;
                    lemma_body_prefix_len(native, rezi);
                    assert forall|r: int, c: int|
                        0 <= r < rezi && 0 <= c < rezi
                            implies body@[serp_pos(rezi, r, c)]
                                == clamp_luma_spec(self.native_px(*img, r, c)) by {
                        lemma_body_at_serp(native, r, c);
                        crate::gray::lemma_row_major_in_bounds(
                            GrayImage::src_row(self.config.rotation, rezi, rezi, r, c),
                            GrayImage::src_col(self.config.rotation, rezi, rezi, r, c),
                            rezi, rezi);
                    }
                    assert forall|r: int|
                        1 <= r < rezi implies body@[body_pos(rezi, r, 0) - 1] == ROW_SEPARATOR by {
                        lemma_body_separator(native, rezi, r);
                    }
                }
                Some(body)
            },
        }
    }
}

/// Any point within the travel disc has coordinates within the travel
/// radius.
proof fn lemma_travel_bound(x: int, y: int, m: int)
    requires
        0 <= m,
        x * x + y * y <= m * m,
    ensures
        -m <= x <= m,
        -m <= y <= m,
{
    assert(-m <= x <= m && -m <= y <= m) by (nonlinear_arith)
        requires
            0 <= m,
            x * x + y * y <= m * m,
    ;
}

/// The four panels of the installation, in bus order.
pub fn default_panels() -> (v: Vec<PanelConfig>)
    ensures
        v@.len() == 4,
        forall|i: int| 0 <= i < 4 ==> (#[trigger] v@[i]).valid(),
        v@[0] == (PanelConfig { rez: 4, center_x: 366i64, center_y: -123i64, span: 450,
            rotation: Rotation::Rotate90 }),
        v@[1] == (PanelConfig { rez: 16, center_x: -198i64, center_y: -212i64, span: 450,
            rotation: Rotation::Rotate90 }),
        v@[2] == (PanelConfig { rez: 8, center_x: -238i64, center_y: 92i64, span: 450,
            rotation: Rotation::Rotate270 }),
        v@[3] == (PanelConfig { rez: 12, center_x: 153i64, center_y: 124i64, span: 450,
            rotation: Rotation::Rotate270 }),
{
    let mut v: Vec<PanelConfig> = Vec::new();
    v.push(PanelConfig {
        rez: 4,
        center_x: 366,
        center_y: -123,
        span: 450,
        rotation: Rotation::Rotate90,
    });
    v.push(PanelConfig {
        rez: 16,
        center_x: -198,
        center_y: -212,
        span: 450,
        rotation: Rotation::Rotate90,
    });
    v.push(PanelConfig {
        rez: 8,
        center_x: -238,
        center_y: 92,
        span: 450,
        rotation: Rotation::Rotate270,
    });
    v.push(PanelConfig {
        rez: 12,
        center_x: 153,
        center_y: 124,
        span: 450,
        rotation: Rotation::Rotate270,
    });
    v
}

} // verus!
