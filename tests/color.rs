use bsl::color::if_color_enabled;
use bsl::{blk, blu, bold_blk, bold_blu, bold_cyn, bold_grn, bold_mag, bold_red, bold_wht, bold_ylw, cyn, grn, mag, red, rst, wht, ylw};

#[test]
fn color_general() {
    assert!(bold_wht == if_color_enabled(bold_wht));

    println!("{}blk{}", blk, rst);
    println!("{}red{}", red, rst);
    println!("{}grn{}", grn, rst);
    println!("{}ylw{}", ylw, rst);
    println!("{}blu{}", blu, rst);
    println!("{}mag{}", mag, rst);
    println!("{}cyn{}", cyn, rst);
    println!("{}wht{}", wht, rst);

    println!("{}bold_blk{}", bold_blk, rst);
    println!("{}bold_red{}", bold_red, rst);
    println!("{}bold_grn{}", bold_grn, rst);
    println!("{}bold_ylw{}", bold_ylw, rst);
    println!("{}bold_blu{}", bold_blu, rst);
    println!("{}bold_mag{}", bold_mag, rst);
    println!("{}bold_cyn{}", bold_cyn, rst);
    println!("{}bold_wht{}", bold_wht, rst);
}
