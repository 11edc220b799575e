//! Enumerations of map service operations.

use vstd::prelude::*;

verus! {

/// Image format of an exported map.
#[derive(Debug, Clone, Copy, PartialEq, Eq, Hash, Structural)]
pub enum ImageFormat {
    Png,
    Png8,
    Png24,
    Png32,
    Jpg,
    Pdf,
    Bmp,
    Gif,
    Svg,
    Svgz,
    Emf,
    Ps,
}

impl ImageFormat {
    /// The name the REST API uses for this value.
    pub open spec fn wire_name(self) -> Seq<char> {
        match self {
            ImageFormat::Png => "png"@,
            ImageFormat::Png8 => "png8"@,
            ImageFormat::Png24 => "png24"@,
            ImageFormat::Png32 => "png32"@,
            ImageFormat::Jpg => "jpg"@,
            ImageFormat::Pdf => "pdf"@,
            ImageFormat::Bmp => "bmp"@,
            ImageFormat::Gif => "gif"@,
            ImageFormat::Svg => "svg"@,
            ImageFormat::Svgz => "svgz"@,
            ImageFormat::Emf => "emf"@,
            ImageFormat::Ps => "ps"@,
        }
    }

    /// Each value has its own wire name, as listed; no two values share
    /// one.
    pub proof fn lemma_wire_names(a: Self, b: Self)
        ensures
            a.wire_name() == b.wire_name() ==> a == b,
            a == ImageFormat::Png ==> a.wire_name() == "png"@,
            a == ImageFormat::Png8 ==> a.wire_name() == "png8"@,
            a == ImageFormat::Png24 ==> a.wire_name() == "png24"@,
            a == ImageFormat::Png32 ==> a.wire_name() == "png32"@,
            a == ImageFormat::Jpg ==> a.wire_name() == "jpg"@,
            a == ImageFormat::Pdf ==> a.wire_name() == "pdf"@,
            a == ImageFormat::Bmp ==> a.wire_name() == "bmp"@,
            a == ImageFormat::Gif ==> a.wire_name() == "gif"@,
            a == ImageFormat::Svg ==> a.wire_name() == "svg"@,
            a == ImageFormat::Svgz ==> a.wire_name() == "svgz"@,
            a == ImageFormat::Emf ==> a.wire_name() == "emf"@,
            a == ImageFormat::Ps ==> a.wire_name() == "ps"@,
    {
        reveal_strlit("bmp");
        reveal_strlit("emf");
        reveal_strlit("gif");
        reveal_strlit("jpg");
        reveal_strlit("pdf");
        reveal_strlit("png");
        reveal_strlit("png24");
        reveal_strlit("png32");
        reveal_strlit("png8");
        reveal_strlit("ps");
        reveal_strlit("svg");
        reveal_strlit("svgz");
        assert("png"@.len() != "png8"@.len());
        assert("png"@.len() != "png24"@.len());
        assert("png"@.len() != "png32"@.len());
        assert("png"@[0] != "jpg"@[0]);
        assert("png"@[1] != "pdf"@[1]);
        assert("png"@[0] != "bmp"@[0]);
        assert("png"@[0] != "gif"@[0]);
        assert("png"@[0] != "svg"@[0]);
        assert("png"@.len() != "svgz"@.len());
        assert("png"@[0] != "emf"@[0]);
        assert("png"@.len() != "ps"@.len());
        assert("png8"@.len() != "png24"@.len());
        assert("png8"@.len() != "png32"@.len());
        assert("png8"@.len() != "jpg"@.len());
        assert("png8"@.len() != "pdf"@.len());
        assert("png8"@.len() != "bmp"@.len());
        assert("png8"@.len() != "gif"@.len());
        assert("png8"@.len() != "svg"@.len());
        assert("png8"@[0] != "svgz"@[0]);
        assert("png8"@.len() != "emf"@.len());
        assert("png8"@.len() != "ps"@.len());
        assert("png24"@[3] != "png32"@[3]);
        assert("png24"@.len() != "jpg"@.len());
        assert("png24"@.len() != "pdf"@.len());
        assert("png24"@.len() != "bmp"@.len());
        assert("png24"@.len() != "gif"@.len());
        assert("png24"@.len() != "svg"@.len());
        assert("png24"@.len() != "svgz"@.len());
        assert("png24"@.len() != "emf"@.len());
        assert("png24"@.len() != "ps"@.len());
        assert("png32"@.len() != "jpg"@.len());
        assert("png32"@.len() != "pdf"@.len());
        assert("png32"@.len() != "bmp"@.len());
        assert("png32"@.len() != "gif"@.len());
        assert("png32"@.len() != "svg"@.len());
        assert("png32"@.len() != "svgz"@.len());
        assert("png32"@.len() != "emf"@.len());
        assert("png32"@.len() != "ps"@.len());
        assert("jpg"@[0] != "pdf"@[0]);
        assert("jpg"@[0] != "bmp"@[0]);
        assert("jpg"@[0] != "gif"@[0]);
        assert("jpg"@[0] != "svg"@[0]);
        assert("jpg"@.len() != "svgz"@.len());
        assert("jpg"@[0] != "emf"@[0]);
        assert("jpg"@.len() != "ps"@.len());
        assert("pdf"@[0] != "bmp"@[0]);
        assert("pdf"@[0] != "gif"@[0]);
        assert("pdf"@[0] != "svg"@[0]);
        assert("pdf"@.len() != "svgz"@.len());
        assert("pdf"@[0] != "emf"@[0]);
        assert("pdf"@.len() != "ps"@.len());
        assert("bmp"@[0] != "gif"@[0]);
        assert("bmp"@[0] != "svg"@[0]);
        assert("bmp"@.len() != "svgz"@.len());
        assert("bmp"@[0] != "emf"@[0]);
        assert("bmp"@.len() != "ps"@.len());
        assert("gif"@[0] != "svg"@[0]);
        assert("gif"@.len() != "svgz"@.len());
        assert("gif"@[0] != "emf"@[0]);
        assert("gif"@.len() != "ps"@.len());
        assert("svg"@.len() != "svgz"@.len());
        assert("svg"@[0] != "emf"@[0]);
        assert("svg"@.len() != "ps"@.len());
        assert("svgz"@.len() != "emf"@.len());
        assert("svgz"@.len() != "ps"@.len());
        assert("emf"@.len() != "ps"@.len());
    }

    /// Returns the name the REST API uses for this value.
    pub fn as_param(&self) -> (r: &'static str)
        ensures
            r@ == self.wire_name(),
    {
        match self {
            ImageFormat::Png => "png",
            ImageFormat::Png8 => "png8",
            ImageFormat::Png24 => "png24",
            ImageFormat::Png32 => "png32",
            ImageFormat::Jpg => "jpg",
            ImageFormat::Pdf => "pdf",
            ImageFormat::Bmp => "bmp",
            ImageFormat::Gif => "gif",
            ImageFormat::Svg => "svg",
            ImageFormat::Svgz => "svgz",
            ImageFormat::Emf => "emf",
            ImageFormat::Ps => "ps",
        }
    }
}

impl Default for ImageFormat {
    fn default() -> (r: ImageFormat)
        ensures
            r == ImageFormat::Png,
    {
        ImageFormat::Png
    }
}

/// How a layer list selects the layers drawn in an export.
#[derive(Debug, Clone, Copy, PartialEq, Eq, Hash, Structural)]
pub enum LayerOperation {
    Show,
    Hide,
    Include,
    Exclude,
}

impl LayerOperation {
    /// The name the REST API uses for this value.
    pub open spec fn op_name(self) -> Seq<char> {
        match self {
            LayerOperation::Show => "show"@,
            LayerOperation::Hide => "hide"@,
            LayerOperation::Include => "include"@,
            LayerOperation::Exclude => "exclude"@,
        }
    }

    /// Each value has its own operation name, as listed; no two values share
    /// one.
    pub proof fn lemma_op_names(a: Self, b: Self)
        ensures
            a.op_name() == b.op_name() ==> a == b,
            a == LayerOperation::Show ==> a.op_name() == "show"@,
            a == LayerOperation::Hide ==> a.op_name() == "hide"@,
            a == LayerOperation::Include ==> a.op_name() == "include"@,
            a == LayerOperation::Exclude ==> a.op_name() == "exclude"@,
    {
        reveal_strlit("exclude");
        reveal_strlit("hide");
        reveal_strlit("include");
        reveal_strlit("show");
        assert("show"@[0] != "hide"@[0]);
        assert("show"@.len() != "include"@.len());
        assert("show"@.len() != "exclude"@.len());
        assert("hide"@.len() != "include"@.len());
        assert("hide"@.len() != "exclude"@.len());
        assert("include"@[0] != "exclude"@[0]);
    }

    /// The operation's name in a `layers` parameter.
    pub fn as_str(&self) -> (r: &'static str)
        ensures
            r@ == self.op_name(),
    {
        match self {
            LayerOperation::Show => "show",
            LayerOperation::Hide => "hide",
            LayerOperation::Include => "include",
            LayerOperation::Exclude => "exclude",
        }
    }
}

/// Temporal relationship used by time-aware requests.
#[derive(Debug, Clone, Copy, PartialEq, Eq, Hash, Structural)]
pub enum TimeRelation {
    Overlaps,
    After,
    Before,
}

impl TimeRelation {
    /// The name the REST API uses for this value.
    pub open spec fn wire_name(self) -> Seq<char> {
        match self {
            TimeRelation::Overlaps => "esriTimeRelationOverlaps"@,
            TimeRelation::After => "esriTimeRelationAfter"@,
            TimeRelation::Before => "esriTimeRelationBefore"@,
        }
    }

    /// Each value has its own wire name, as listed; no two values share
    /// one.
    pub proof fn lemma_wire_names(a: Self, b: Self)
        ensures
            a.wire_name() == b.wire_name() ==> a == b,
            a == TimeRelation::Overlaps ==> a.wire_name() == "esriTimeRelationOverlaps"@,
            a == TimeRelation::After ==> a.wire_name() == "esriTimeRelationAfter"@,
            a == TimeRelation::Before ==> a.wire_name() == "esriTimeRelationBefore"@,
    {
        reveal_strlit("esriTimeRelationAfter");
        reveal_strlit("esriTimeRelationBefore");
        reveal_strlit("esriTimeRelationOverlaps");
        assert("esriTimeRelationOverlaps"@.len() != "esriTimeRelationAfter"@.len());
        assert("esriTimeRelationOverlaps"@.len() != "esriTimeRelationBefore"@.len());
        assert("esriTimeRelationAfter"@.len() != "esriTimeRelationBefore"@.len());
    }

    /// Returns the name the REST API uses for this value.
    pub fn as_param(&self) -> (r: &'static str)
        ensures
            r@ == self.wire_name(),
    {
        match self {
            TimeRelation::Overlaps => "esriTimeRelationOverlaps",
            TimeRelation::After => "esriTimeRelationAfter",
            TimeRelation::Before => "esriTimeRelationBefore",
        }
    }
}

impl Default for TimeRelation {
    fn default() -> (r: TimeRelation)
        ensures
            r == TimeRelation::Overlaps,
    {
        TimeRelation::Overlaps
    }
}

/// Format of a map service response (the `f` parameter).
#[derive(Debug, Clone, Copy, PartialEq, Eq, Structural)]
pub enum ResponseFormat {
    Html,
    Json,
    PJson,
    Image,
    Kmz,
}

impl ResponseFormat {
    /// The name the REST API uses for this value.
    pub open spec fn wire_name(self) -> Seq<char> {
        match self {
            ResponseFormat::Html => "html"@,
            ResponseFormat::Json => "json"@,
            ResponseFormat::PJson => "pjson"@,
            ResponseFormat::Image => "image"@,
            ResponseFormat::Kmz => "kmz"@,
        }
    }

    /// Each value has its own wire name, as listed; no two values share
    /// one.
    pub proof fn lemma_wire_names(a: Self, b: Self)
        ensures
            a.wire_name() == b.wire_name() ==> a == b,
            a == ResponseFormat::Html ==> a.wire_name() == "html"@,
            a == ResponseFormat::Json ==> a.wire_name() == "json"@,
            a == ResponseFormat::PJson ==> a.wire_name() == "pjson"@,
            a == ResponseFormat::Image ==> a.wire_name() == "image"@,
            a == ResponseFormat::Kmz ==> a.wire_name() == "kmz"@,
    {
        reveal_strlit("html");
        reveal_strlit("image");
        reveal_strlit("json");
        reveal_strlit("kmz");
        reveal_strlit("pjson");
        assert("html"@[0] != "json"@[0]);
        assert("html"@.len() != "pjson"@.len());
        assert("html"@.len() != "image"@.len());
        assert("html"@.len() != "kmz"@.len());
        assert("json"@.len() != "pjson"@.len());
        assert("json"@.len() != "image"@.len());
        assert("json"@.len() != "kmz"@.len());
        assert("pjson"@[0] != "image"@[0]);
        assert("pjson"@.len() != "kmz"@.len());
        assert("image"@.len() != "kmz"@.len());
    }

    /// Returns the name the REST API uses for this value.
    pub fn as_param(&self) -> (r: &'static str)
        ensures
            r@ == self.wire_name(),
    {
        match self {
            ResponseFormat::Html => "html",
            ResponseFormat::Json => "json",
            ResponseFormat::PJson => "pjson",
            ResponseFormat::Image => "image",
            ResponseFormat::Kmz => "kmz",
        }
    }
}

impl Default for ResponseFormat {
    fn default() -> (r: ResponseFormat)
        ensures
            r == ResponseFormat::Json,
    {
        ResponseFormat::Json
    }
}

/// Which layers an identify request searches.
#[derive(Debug, Clone, Copy, PartialEq, Eq, Hash, Structural)]
pub enum LayerSelection {
    Top,
    Visible,
    All,
}

impl LayerSelection {
    /// The name the REST API uses for this value.
    pub open spec fn wire_name(self) -> Seq<char> {
        match self {
            LayerSelection::Top => "top"@,
            LayerSelection::Visible => "visible"@,
            LayerSelection::All => "all"@,
        }
    }

    /// Each value has its own wire name, as listed; no two values share
    /// one.
    pub proof fn lemma_wire_names(a: Self, b: Self)
        ensures
            a.wire_name() == b.wire_name() ==> a == b,
            a == LayerSelection::Top ==> a.wire_name() == "top"@,
            a == LayerSelection::Visible ==> a.wire_name() == "visible"@,
            a == LayerSelection::All ==> a.wire_name() == "all"@,
    {
        reveal_strlit("all");
        reveal_strlit("top");
        reveal_strlit("visible");
        assert("top"@.len() != "visible"@.len());
        assert("top"@[0] != "all"@[0]);
        assert("visible"@.len() != "all"@.len());
    }

    /// Returns the name the REST API uses for this value.
    pub fn as_param(&self) -> (r: &'static str)
        ensures
            r@ == self.wire_name(),
    {
        match self {
            LayerSelection::Top => "top",
            LayerSelection::Visible => "visible",
            LayerSelection::All => "all",
        }
    }
}

impl Default for LayerSelection {
    fn default() -> (r: LayerSelection)
        ensures
            r == LayerSelection::Visible,
    {
        LayerSelection::Visible
    }
}

impl ResponseFormat {
    /// The variant's name as `Debug` prints it.
    pub open spec fn debug_name(self) -> Seq<char> {
        match self {
            ResponseFormat::Html => "Html"@,
            ResponseFormat::Json => "Json"@,
            ResponseFormat::PJson => "PJson"@,
            ResponseFormat::Image => "Image"@,
            ResponseFormat::Kmz => "Kmz"@,
        }
    }

    /// Each value has its own debug name, as listed; no two values share
    /// one.
    pub proof fn lemma_debug_names(a: Self, b: Self)
        ensures
            a.debug_name() == b.debug_name() ==> a == b,
            a == ResponseFormat::Html ==> a.debug_name() == "Html"@,
            a == ResponseFormat::Json ==> a.debug_name() == "Json"@,
            a == ResponseFormat::PJson ==> a.debug_name() == "PJson"@,
            a == ResponseFormat::Image ==> a.debug_name() == "Image"@,
            a == ResponseFormat::Kmz ==> a.debug_name() == "Kmz"@,
    {
        reveal_strlit("Html");
        reveal_strlit("Image");
        reveal_strlit("Json");
        reveal_strlit("Kmz");
        reveal_strlit("PJson");
        assert("Html"@[0] != "Json"@[0]);
        assert("Html"@.len() != "PJson"@.len());
        assert("Html"@.len() != "Image"@.len());
        assert("Html"@.len() != "Kmz"@.len());
        assert("Json"@.len() != "PJson"@.len());
        assert("Json"@.len() != "Image"@.len());
        assert("Json"@.len() != "Kmz"@.len());
        assert("PJson"@[0] != "Image"@[0]);
        assert("PJson"@.len() != "Kmz"@.len());
        assert("Image"@.len() != "Kmz"@.len());
    }

    /// Returns the variant's name as `Debug` prints it.
    pub fn debug_str(&self) -> (r: &'static str)
        ensures
            r@ == self.debug_name(),
    {
        match self {
            ResponseFormat::Html => "Html",
            ResponseFormat::Json => "Json",
            ResponseFormat::PJson => "PJson",
            ResponseFormat::Image => "Image",
            ResponseFormat::Kmz => "Kmz",
        }
    }
}

} // verus!
