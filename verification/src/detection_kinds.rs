//! The error and the small vocabularies of the image-analysis values
//! attached to a keyframe.
use vstd::prelude::*;


verus! {

/// Error returned when a detection value cannot uphold a numeric-range
/// invariant.
#[derive(Debug, Clone, Copy, PartialEq, Eq, Hash, Structural)]
#[non_exhaustive]
pub enum DetectionError {
    /// a confidence was non-finite or outside `0.0..=1.0`.
    ConfidenceOutOfRange,
    /// a normalized coordinate was non-finite or outside `0.0..=1.0`.
    CoordOutOfRange,
    /// a bounding box extends past the normalized image edge.
    BoxOutOfBounds,
    /// a bounding box had zero width or height.
    BoxDegenerate,
    /// a percentage was non-finite or outside `0.0..=100.0`.
    PercentageOutOfRange,
    /// a document quad had two coincident corners.
    QuadCollapsedCorners,
    /// a document quad enclosed zero area.
    QuadZeroArea,
    /// a document quad was self-intersecting or inconsistently wound.
    QuadSelfIntersecting,
}

/// The message of each [`DetectionError`].
pub open spec fn detection_error_message(e: DetectionError) -> Seq<char> {
    match e {
        DetectionError::ConfidenceOutOfRange => "confidence must be finite and within 0.0..=1.0"@,
        DetectionError::CoordOutOfRange => "normalized coordinate must be finite and within 0.0..=1.0"@,
        DetectionError::BoxOutOfBounds => "bounding box must not extend past the normalized image edge"@,
        DetectionError::BoxDegenerate => "bounding box width and height must be greater than zero"@,
        DetectionError::PercentageOutOfRange => "percentage must be finite and within 0.0..=100.0"@,
        DetectionError::QuadCollapsedCorners => "document quad must not have coincident corners"@,
        DetectionError::QuadZeroArea => "document quad must enclose a non-zero area"@,
        DetectionError::QuadSelfIntersecting => "document quad must be simple (non-self-intersecting, consistent winding)"@,
    }
}

impl DetectionError {
    /// True iff this is `DetectionError::ConfidenceOutOfRange`.
    pub fn is_confidence_out_of_range(&self) -> (r: bool)
        ensures
            r == (*self is ConfidenceOutOfRange),
    {
        match self {
            DetectionError::ConfidenceOutOfRange => true,
            #[allow(unreachable_patterns)]
            _ => false,
        }
    }

    /// True iff this is `DetectionError::CoordOutOfRange`.
    pub fn is_coord_out_of_range(&self) -> (r: bool)
        ensures
            r == (*self is CoordOutOfRange),
    {
        match self {
            DetectionError::CoordOutOfRange => true,
            #[allow(unreachable_patterns)]
            _ => false,
        }
    }

    /// True iff this is `DetectionError::BoxOutOfBounds`.
    pub fn is_box_out_of_bounds(&self) -> (r: bool)
        ensures
            r == (*self is BoxOutOfBounds),
    {
        match self {
            DetectionError::BoxOutOfBounds => true,
            #[allow(unreachable_patterns)]
            _ => false,
        }
    }

    /// True iff this is `DetectionError::BoxDegenerate`.
    pub fn is_box_degenerate(&self) -> (r: bool)
        ensures
            r == (*self is BoxDegenerate),
    {
        match self {
            DetectionError::BoxDegenerate => true,
            #[allow(unreachable_patterns)]
            _ => false,
        }
    }

    /// True iff this is `DetectionError::PercentageOutOfRange`.
    pub fn is_percentage_out_of_range(&self) -> (r: bool)
        ensures
            r == (*self is PercentageOutOfRange),
    {
        match self {
            DetectionError::PercentageOutOfRange => true,
            #[allow(unreachable_patterns)]
            _ => false,
        }
    }

    /// True iff this is `DetectionError::QuadCollapsedCorners`.
    pub fn is_quad_collapsed_corners(&self) -> (r: bool)
        ensures
            r == (*self is QuadCollapsedCorners),
    {
        match self {
            DetectionError::QuadCollapsedCorners => true,
            #[allow(unreachable_patterns)]
            _ => false,
        }
    }

    /// True iff this is `DetectionError::QuadZeroArea`.
    pub fn is_quad_zero_area(&self) -> (r: bool)
        ensures
            r == (*self is QuadZeroArea),
    {
        match self {
            DetectionError::QuadZeroArea => true,
            #[allow(unreachable_patterns)]
            _ => false,
        }
    }

    /// True iff this is `DetectionError::QuadSelfIntersecting`.
    pub fn is_quad_self_intersecting(&self) -> (r: bool)
        ensures
            r == (*self is QuadSelfIntersecting),
    {
        match self {
            DetectionError::QuadSelfIntersecting => true,
            #[allow(unreachable_patterns)]
            _ => false,
        }
    }

    /// Human-readable description.
    pub fn message(&self) -> (r: String)
        ensures
            r@ == detection_error_message(*self),
    {
        match self {
            DetectionError::ConfidenceOutOfRange => {
                proof {
                    reveal_strlit("confidence must be finite and within 0.0..=1.0");
                }
                "confidence must be finite and within 0.0..=1.0".to_owned()
            },
            DetectionError::CoordOutOfRange => {
                proof {
                    reveal_strlit("normalized coordinate must be finite and within 0.0..=1.0");
                }
                "normalized coordinate must be finite and within 0.0..=1.0".to_owned()
            },
            DetectionError::BoxOutOfBounds => {
                proof {
                    reveal_strlit("bounding box must not extend past the normalized image edge");
                }
                "bounding box must not extend past the normalized image edge".to_owned()
            },
            DetectionError::BoxDegenerate => {
                proof {
                    reveal_strlit("bounding box width and height must be greater than zero");
                }
                "bounding box width and height must be greater than zero".to_owned()
            },
            DetectionError::PercentageOutOfRange => {
                proof {
                    reveal_strlit("percentage must be finite and within 0.0..=100.0");
                }
                "percentage must be finite and within 0.0..=100.0".to_owned()
            },
            DetectionError::QuadCollapsedCorners => {
                proof {
                    reveal_strlit("document quad must not have coincident corners");
                }
                "document quad must not have coincident corners".to_owned()
            },
            DetectionError::QuadZeroArea => {
                proof {
                    reveal_strlit("document quad must enclose a non-zero area");
                }
                "document quad must enclose a non-zero area".to_owned()
            },
            DetectionError::QuadSelfIntersecting => {
                proof {
                    reveal_strlit("document quad must be simple (non-self-intersecting, consistent winding)");
                }
                "document quad must be simple (non-self-intersecting, consistent winding)".to_owned()
            },
        }
    }
}

/// Which hand a hand-pose detection shows.
#[derive(Debug, Clone, Copy, PartialEq, Eq, Hash, Structural)]
#[non_exhaustive]
pub enum HandChirality {
    /// Not determined.
    Unknown,
    /// The left hand.
    Left,
    /// The right hand.
    Right,
}

impl HandChirality {
    /// True iff this is `HandChirality::Unknown`.
    pub fn is_unknown(&self) -> (r: bool)
        ensures
            r == (*self is Unknown),
    {
        match self {
            HandChirality::Unknown => true,
            #[allow(unreachable_patterns)]
            _ => false,
        }
    }

    /// True iff this is `HandChirality::Left`.
    pub fn is_left(&self) -> (r: bool)
        ensures
            r == (*self is Left),
    {
        match self {
            HandChirality::Left => true,
            #[allow(unreachable_patterns)]
            _ => false,
        }
    }

    /// True iff this is `HandChirality::Right`.
    pub fn is_right(&self) -> (r: bool)
        ensures
            r == (*self is Right),
    {
        match self {
            HandChirality::Right => true,
            #[allow(unreachable_patterns)]
            _ => false,
        }
    }
}

impl Default for HandChirality {
    /// `Unknown`.
    fn default() -> (r: Self)
        ensures
            r == HandChirality::Unknown,
    {
        HandChirality::Unknown
    }
}

/// Where a 3-D body pose took its height from.
#[derive(Debug, Clone, Copy, PartialEq, Eq, Hash, Structural)]
#[non_exhaustive]
pub enum BodyPose3DHeightEstimation {
    /// Not determined.
    Unknown,
    /// A reference height.
    Reference,
    /// A measured height.
    Measured,
}

impl BodyPose3DHeightEstimation {
    /// True iff this is `BodyPose3DHeightEstimation::Unknown`.
    pub fn is_unknown(&self) -> (r: bool)
        ensures
            r == (*self is Unknown),
    {
        match self {
            BodyPose3DHeightEstimation::Unknown => true,
            #[allow(unreachable_patterns)]
            _ => false,
        }
    }

    /// True iff this is `BodyPose3DHeightEstimation::Reference`.
    pub fn is_reference(&self) -> (r: bool)
        ensures
            r == (*self is Reference),
    {
        match self {
            BodyPose3DHeightEstimation::Reference => true,
            #[allow(unreachable_patterns)]
            _ => false,
        }
    }

    /// True iff this is `BodyPose3DHeightEstimation::Measured`.
    pub fn is_measured(&self) -> (r: bool)
        ensures
            r == (*self is Measured),
    {
        match self {
            BodyPose3DHeightEstimation::Measured => true,
            #[allow(unreachable_patterns)]
            _ => false,
        }
    }
}

impl Default for BodyPose3DHeightEstimation {
    /// `Unknown`.
    fn default() -> (r: Self)
        ensures
            r == BodyPose3DHeightEstimation::Unknown,
    {
        BodyPose3DHeightEstimation::Unknown
    }
}

} // verus!
