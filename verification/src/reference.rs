//! The escape-time maps rendered by the CPU reference renderer, and the
//! names they go by on the command line of the comparison tool.

use vstd::prelude::*;
use crate::text::chars_of;
use crate::text::seq_eq;

verus! {

/// Which 2D escape-time map the reference renderer computes.
#[derive(Debug, Clone, Copy, PartialEq, Eq, Structural)]
pub enum FractalKind {
    Mandelbrot,
    BurningShip,
    Tricorn,
}

pub open spec fn spec_parse_kind(s: Seq<char>) -> Option<FractalKind> {
    if s == "mandelbrot"@ {
        Some(FractalKind::Mandelbrot)
    } else if s == "burning_ship"@ {
        Some(FractalKind::BurningShip)
    } else if s == "tricorn"@ {
        Some(FractalKind::Tricorn)
    } else {
        None
    }
}

/// The map named on the command line (`mandelbrot`, `burning_ship` or
/// `tricorn`), or `None` for any other word.
pub fn parse_kind(s: &str) -> (k: Option<FractalKind>)
    ensures
        k == spec_parse_kind(s@),
{
    let v = chars_of(s);
    if seq_eq(&v, &chars_of("mandelbrot")) {
        Some(FractalKind::Mandelbrot)
    } else if seq_eq(&v, &chars_of("burning_ship")) {
        Some(FractalKind::BurningShip)
    } else if seq_eq(&v, &chars_of("tricorn")) {
        Some(FractalKind::Tricorn)
    } else {
        None
    }
}

/// The comparison tool's map names: `mandelbrot`, `burning_ship` and
/// `tricorn` name those three maps, and no other word names one.
pub proof fn lemma_kind_names(s: Seq<char>)
    ensures
        spec_parse_kind(seq!['m', 'a', 'n', 'd', 'e', 'l', 'b', 'r', 'o', 't']) == Some(FractalKind::Mandelbrot),
        spec_parse_kind(seq!['b', 'u', 'r', 'n', 'i', 'n', 'g', '_', 's', 'h', 'i', 'p']) == Some(FractalKind::BurningShip),
        spec_parse_kind(seq!['t', 'r', 'i', 'c', 'o', 'r', 'n']) == Some(FractalKind::Tricorn),
        spec_parse_kind(s) is Some ==> (s == seq!['m', 'a', 'n', 'd', 'e', 'l', 'b', 'r', 'o', 't'] || s == seq![
            'b', 'u', 'r', 'n', 'i', 'n', 'g', '_', 's', 'h', 'i', 'p'] || s == seq!['t', 'r', 'i', 'c', 'o', 'r', 'n']),
{
    reveal_strlit("mandelbrot");
    reveal_strlit("burning_ship");
    reveal_strlit("tricorn");
    assert(seq!['m', 'a', 'n', 'd', 'e', 'l', 'b', 'r', 'o', 't'] =~= "mandelbrot"@);
    assert(seq!['b', 'u', 'r', 'n', 'i', 'n', 'g', '_', 's', 'h', 'i', 'p'] =~= "burning_ship"@);
    assert(seq!['t', 'r', 'i', 'c', 'o', 'r', 'n'] =~= "tricorn"@);
}

} // verus!
