use vstd::prelude::*;

verus! {

/// Why a single conversion failed. The batch pass and the watch loop log
/// such a failure and move on; nothing is written on any failure.
#[derive(Debug)]
pub enum ConversionError {
    /// The source file could not be opened or read.
    Read(String),
    /// The source bytes are not a well-formed vector-graphics document.
    Parse(String),
    /// The document's declared dimensions admit no raster surface.
    Allocation,
    /// The raster could not be encoded or the destination not written.
    Write(String),
}

/// Whether the given bytes parse as a well-formed SVG document of positive
/// declared size, under the parser's default options. By the parser's
/// source, every failure — content that is not UTF-8 or not well-formed
/// XML, an element count over its limit, a missing or non-positive size —
/// is decided by the bytes alone; the font catalog never decides it.
pub uninterp spec fn svg_parses(data: Seq<u8>) -> bool;

/// The eight bytes every PNG stream begins with.
pub open spec fn png_signature() -> Seq<u8> {
    seq![137u8, 80u8, 78u8, 71u8, 13u8, 10u8, 26u8, 10u8]
}

/// A PNG byte stream: it opens with the PNG signature and carries more
/// than the signature alone.
pub open spec fn is_png_stream(bytes: Seq<u8>) -> bool {
    bytes.len() > 8 && bytes.subrange(0, 8) == png_signature()
}

#[verifier::external_type_specification]
#[verifier::external_body]
pub struct ExFontDatabase(fontdb::Database);

#[verifier::external_type_specification]
#[verifier::external_body]
pub struct ExSvgTree(usvg::Tree);

#[verifier::external_type_specification]
#[verifier::external_body]
pub struct ExPixmap(tiny_skia::Pixmap);

/// Relies on fontdb::Database::new: makes an empty font catalog.
#[verifier::external_body]
fn new_font_database() -> fontdb::Database {
    fontdb::Database::new()
}

/// Relies on fontdb::Database::load_system_fonts: adds the fonts installed
/// on this machine to the catalog; what it finds depends on the machine.
#[verifier::external_body]
fn load_system_fonts(db: &mut fontdb::Database) {
    db.load_system_fonts()
}

/// Relies on usvg::Tree::from_data: parses SVG bytes into a render tree,
/// resolving text through the given font catalog. Its source decides
/// success or failure from the bytes alone, before any text is shaped:
/// fonts only affect what the parsed tree holds, never whether one comes.
#[verifier::external_body]
fn parse_svg(data: &Vec<u8>, db: fontdb::Database) -> (r: Result<usvg::Tree, String>)
    ensures
        r is Ok <==> svg_parses(data@),
{
    let opt = usvg::Options { fontdb: std::sync::Arc::new(db), ..usvg::Options::default() };
    match usvg::Tree::from_data(data.as_slice(), &opt) {
        Ok(tree) => Ok(tree),
        Err(e) => Err(e.to_string()),
    }
}

/// Relies on usvg::Tree::size: the document's dimensions, taken to whole
/// pixels as the rasterizer expects them. Not stated as a function of the
/// bytes: for a document that declares no size, the parser measures the
/// content instead, and for text that measure depends on the font catalog.
#[verifier::external_body]
fn tree_dimensions(tree: &usvg::Tree) -> (r: (u32, u32)) {
    let size = tree.size();
    (size.width() as u32, size.height() as u32)
}

/// Relies on tiny_skia::Pixmap::new: allocates a raster surface of the
/// given dimensions. Its source builds the surface from nonzero lengths,
/// so a zero dimension yields None and a surface never has one; it also
/// yields None when the pixel data would overflow its row arithmetic.
#[verifier::external_body]
fn new_pixmap(width: u32, height: u32) -> (r: Option<tiny_skia::Pixmap>)
    ensures
        width == 0 || height == 0 ==> r is None,
        r is Some ==> width > 0 && height > 0,
{
    tiny_skia::Pixmap::new(width, height)
}

/// Relies on resvg::render: rasterizes the tree onto the surface under the
/// identity transform, so the output keeps the document's declared size.
#[verifier::external_body]
fn render_tree(tree: &usvg::Tree, pixmap: &mut tiny_skia::Pixmap) {
    resvg::render(tree, tiny_skia::Transform::default(), &mut pixmap.as_mut());
}

/// Relies on tiny_skia::Pixmap::encode_png: encodes the surface as a PNG
/// byte stream. Its encoder writes the eight-byte PNG signature and a
/// header chunk before any pixel data, so a success is a PNG stream.
#[verifier::external_body]
fn encode_png(pixmap: &tiny_skia::Pixmap) -> (r: Result<Vec<u8>, String>)
    ensures
        r matches Ok(png) ==> is_png_stream(png@),
{
    match pixmap.encode_png() {
        Ok(data) => Ok(data),
        Err(e) => Err(e.to_string()),
    }
}

/// Converts one document, given its bytes: parse with the system font
/// catalog, rasterize at the document's size under the identity transform,
/// and encode as PNG.
///
/// A parse failure is reported exactly on the inputs that do not parse as
/// a document; every other outcome — a PNG stream on success, an
/// allocation failure when the dimensions admit no surface, a write
/// failure when encoding fails — comes only from a document that parses.
/// Reading is the caller's step, so a read failure is never reported here.
pub fn convert(svg_data: &Vec<u8>) -> (r: Result<Vec<u8>, ConversionError>)
    ensures
        r matches Ok(png) ==> is_png_stream(png@),
        (r matches Err(ConversionError::Parse(_))) <==> !svg_parses(svg_data@),
        r matches Err(ConversionError::Allocation) ==> svg_parses(svg_data@),
        r matches Err(ConversionError::Write(_)) ==> svg_parses(svg_data@),
        !(r matches Err(ConversionError::Read(_))),
{
    let mut db = new_font_database();
    load_system_fonts(&mut db);
    let tree = match parse_svg(svg_data, db) {
        Ok(tree) => tree,
        Err(reason) => {
            return Err(ConversionError::Parse(reason));
        },
    };
    let dims = tree_dimensions(&tree);
    let mut pixmap = match new_pixmap(dims.0, dims.1) {
        Some(pixmap) => pixmap,
        None => {
            return Err(ConversionError::Allocation);
        },
    };
    render_tree(&tree, &mut pixmap);
    match encode_png(&pixmap) {
        Ok(png) => Ok(png),
        Err(reason) => Err(ConversionError::Write(reason)),
    }
}

} // verus!
