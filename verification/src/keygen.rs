//! Keypair derivation: a secret scalar drawn from a seeded generator
//! and a public point obtained by scalar multiplication of the fixed
//! generator.
//!
//! The group arithmetic is delegated to `ark_ec`'s twisted Edwards
//! implementation for this curve, which works on the isomorphic `a = 1`
//! form `x^2 + y^2 = 1 + (d/a)*x^2*y^2`. The verified code converts
//! coordinates between the two forms by the documented map
//! `x -> sqrt(a)*x` and proves, from the checked constant relations,
//! that the conversion carries each curve equation into the other. No
//! cofactor clearing is performed: a small-order component of the
//! secret scalar is not eliminated, so low-order public keys are
//! possible; that is an accepted limitation of this derivation, kept as
//! documented behaviour.

use vstd::prelude::*;
use vstd::arithmetic::div_mod::{lemma_add_mod_noop, lemma_mul_mod_noop_general, lemma_small_mod};
use ark_ff::{BigInteger, PrimeField, UniformRand};
use ark_ec::CurveGroup;
use rand::SeedableRng;
use crate::bignat::{le_val, big_mul, big_rem, big_rem32, big_eq, lemma_le_val_injective};
use crate::curve::{AffinePoint, EdwardsConfig, generator, generator_x, generator_y, is_on_curve,
    on_curve, p_base, r_scalar, lemma_p_base_positive, COEFF_A, COEFF_D};

verus! {

/// The scalar drawn from the scalar field by a generator seeded with
/// the given 32 bytes. Deterministic: a fixed seed fixes the scalar.
pub uninterp spec fn scalar_of_seed(seed: Seq<u8>) -> nat;

/// The affine coordinates of `s * (x, y)` on the `a = 1` form of the
/// curve, as base-field values. A deterministic function of the scalar
/// and the point.
pub uninterp spec fn unit_smul(s: nat, x: nat, y: nat) -> (nat, nat);

/// `sqrt(168700)` in the base field, little-endian:
/// 7214280148105020021932206872019688659210616427216992810330019057549499971851.
/// Multiplying the x-coordinate by this constant carries a point of the
/// `a = 168700` curve onto the `a = 1` form.
pub open spec fn sqrt_coeff_a() -> Seq<u8> {
    seq![0x0bu8, 0x39, 0x64, 0x11, 0x02, 0x05, 0xc6, 0xef, 0x2e, 0x32, 0xa2, 0xc2, 0x58, 0x27,
        0x07, 0x49, 0xbf, 0xba, 0x91, 0x55, 0xfb, 0x1f, 0x41, 0xd1, 0xf8, 0xa3, 0x38, 0xfb,
        0x4a, 0x23, 0xf3, 0x0f]
}

/// The inverse of [`sqrt_coeff_a`] in the base field, little-endian:
/// 2957874849018779266517920829765869116077630550401372566248359756137677864698.
pub open spec fn inv_sqrt_coeff_a() -> Seq<u8> {
    seq![0xfau8, 0x3e, 0xae, 0x52, 0x38, 0x44, 0xff, 0x8a, 0xa9, 0x01, 0x46, 0x33, 0x69, 0x6a,
        0xa0, 0x24, 0xb5, 0xac, 0x6e, 0x81, 0x7a, 0xcf, 0xe1, 0x8c, 0x1f, 0x3c, 0x56, 0xd4,
        0x0b, 0x19, 0x8a, 0x06]
}

/// The Edwards coefficient of the `a = 1` form, `d/a` in the base
/// field, little-endian:
/// 9706598848417545097372247223557719406784115219466060233080913168975159366771.
pub open spec fn d_unit() -> Seq<u8> {
    seq![0x73u8, 0x14, 0x28, 0xfb, 0x06, 0x2b, 0x6c, 0x73, 0x29, 0xa8, 0x01, 0x8e, 0xee, 0xbe,
        0x98, 0x24, 0x61, 0x46, 0x84, 0xe7, 0xde, 0xd2, 0x5f, 0x7a, 0xc0, 0x16, 0x10, 0x82,
        0x81, 0xbd, 0x75, 0x15]
}

/// The `a = 1` form of the curve equation,
/// `x^2 + y^2 = 1 + (d/a)*x^2*y^2` over the base field.
pub open spec fn on_unit_curve(x: nat, y: nat) -> bool {
    (x * x + y * y) % le_val(p_base()) == (1 + le_val(d_unit()) * x * x * y * y) % le_val(
        p_base(),
    )
}

/// The relations that tie the conversion constants to the curve
/// coefficients: `sqrt_coeff_a` squares to `a`, `inv_sqrt_coeff_a` is
/// its inverse, and `d_unit * a` is `d`, all over the base field.
pub open spec fn conversion_constants_ok() -> bool {
    &&& (le_val(sqrt_coeff_a()) * le_val(sqrt_coeff_a())) % le_val(p_base()) == (COEFF_A as nat)
        % le_val(p_base())
    &&& (le_val(sqrt_coeff_a()) * le_val(inv_sqrt_coeff_a())) % le_val(p_base()) == 1nat % le_val(
        p_base(),
    )
    &&& (le_val(d_unit()) * (COEFF_A as nat)) % le_val(p_base()) == (COEFF_D as nat) % le_val(
        p_base(),
    )
}

/// The square-root constant's bytes denote their documented decimal value.
#[verifier::rlimit(100)]
pub proof fn lemma_sqrt_coeff_a_value()
    ensures
        le_val(sqrt_coeff_a()) == 7214280148105020021932206872019688659210616427216992810330019057549499971851,
{
    let s = sqrt_coeff_a();
    assert(s.skip(31).skip(1) =~= Seq::<u8>::empty());
    assert(le_val(s.skip(31)) == 15) by {
        assert(le_val(s.skip(31)) == (s.skip(31)[0] as nat) + 256 * le_val(s.skip(31).skip(1)));
    }
    assert(s.skip(30).skip(1) =~= s.skip(31));
    assert(le_val(s.skip(30)) == 4083) by {
        assert(le_val(s.skip(30)) == (s.skip(30)[0] as nat) + 256 * le_val(s.skip(30).skip(1)));
    }
    assert(s.skip(29).skip(1) =~= s.skip(30));
    assert(le_val(s.skip(29)) == 1045283) by {
        assert(le_val(s.skip(29)) == (s.skip(29)[0] as nat) + 256 * le_val(s.skip(29).skip(1)));
    }
    assert(s.skip(28).skip(1) =~= s.skip(29));
    assert(le_val(s.skip(28)) == 267592522) by {
        assert(le_val(s.skip(28)) == (s.skip(28)[0] as nat) + 256 * le_val(s.skip(28).skip(1)));
    }
    assert(s.skip(27).skip(1) =~= s.skip(28));
    assert(le_val(s.skip(27)) == 68503685883) by {
        assert(le_val(s.skip(27)) == (s.skip(27)[0] as nat) + 256 * le_val(s.skip(27).skip(1)));
    }
    assert(s.skip(26).skip(1) =~= s.skip(27));
    assert(le_val(s.skip(26)) == 17536943586104) by {
        assert(le_val(s.skip(26)) == (s.skip(26)[0] as nat) + 256 * le_val(s.skip(26).skip(1)));
    }
    assert(s.skip(25).skip(1) =~= s.skip(26));
    assert(le_val(s.skip(25)) == 4489457558042787) by {
        assert(le_val(s.skip(25)) == (s.skip(25)[0] as nat) + 256 * le_val(s.skip(25).skip(1)));
    }
    assert(s.skip(24).skip(1) =~= s.skip(25));
    assert(le_val(s.skip(24)) == 1149301134858953720) by {
        assert(le_val(s.skip(24)) == (s.skip(24)[0] as nat) + 256 * le_val(s.skip(24).skip(1)));
    }
    assert(s.skip(23).skip(1) =~= s.skip(24));
    assert(le_val(s.skip(23)) == 294221090523892152529) by {
        assert(le_val(s.skip(23)) == (s.skip(23)[0] as nat) + 256 * le_val(s.skip(23).skip(1)));
    }
    assert(s.skip(22).skip(1) =~= s.skip(23));
    assert(le_val(s.skip(22)) == 75320599174116391047489) by {
        assert(le_val(s.skip(22)) == (s.skip(22)[0] as nat) + 256 * le_val(s.skip(22).skip(1)));
    }
    assert(s.skip(21).skip(1) =~= s.skip(22));
    assert(le_val(s.skip(21)) == 19282073388573796108157215) by {
        assert(le_val(s.skip(21)) == (s.skip(21)[0] as nat) + 256 * le_val(s.skip(21).skip(1)));
    }
    assert(s.skip(20).skip(1) =~= s.skip(21));
    assert(le_val(s.skip(20)) == 4936210787474891803688247291) by {
        assert(le_val(s.skip(20)) == (s.skip(20)[0] as nat) + 256 * le_val(s.skip(20).skip(1)));
    }
    assert(s.skip(19).skip(1) =~= s.skip(20));
    assert(le_val(s.skip(19)) == 1263669961593572301744191306581) by {
        assert(le_val(s.skip(19)) == (s.skip(19)[0] as nat) + 256 * le_val(s.skip(19).skip(1)));
    }
    assert(s.skip(18).skip(1) =~= s.skip(19));
    assert(le_val(s.skip(18)) == 323499510167954509246512974484881) by {
        assert(le_val(s.skip(18)) == (s.skip(18)[0] as nat) + 256 * le_val(s.skip(18).skip(1)));
    }
    assert(s.skip(17).skip(1) =~= s.skip(18));
    assert(le_val(s.skip(17)) == 82815874602996354367107321468129722) by {
        assert(le_val(s.skip(17)) == (s.skip(17)[0] as nat) + 256 * le_val(s.skip(17).skip(1)));
    }
    assert(s.skip(16).skip(1) =~= s.skip(17));
    assert(le_val(s.skip(16)) == 21200863898367066717979474295841209023) by {
        assert(le_val(s.skip(16)) == (s.skip(16)[0] as nat) + 256 * le_val(s.skip(16).skip(1)));
    }
    assert(s.skip(15).skip(1) =~= s.skip(16));
    assert(le_val(s.skip(15)) == 5427421157981969079802745419735349509961) by {
        assert(le_val(s.skip(15)) == (s.skip(15)[0] as nat) + 256 * le_val(s.skip(15).skip(1)));
    }
    assert(s.skip(14).skip(1) =~= s.skip(15));
    assert(le_val(s.skip(14)) == 1389419816443384084429502827452249474550023) by {
        assert(le_val(s.skip(14)) == (s.skip(14)[0] as nat) + 256 * le_val(s.skip(14).skip(1)));
    }
    assert(s.skip(13).skip(1) =~= s.skip(14));
    assert(le_val(s.skip(13)) == 355691473009506325613952723827775865484805927) by {
        assert(le_val(s.skip(13)) == (s.skip(13)[0] as nat) + 256 * le_val(s.skip(13).skip(1)));
    }
    assert(s.skip(12).skip(1) =~= s.skip(13));
    assert(le_val(s.skip(12)) == 91057017090433619357171897299910621564110317400) by {
        assert(le_val(s.skip(12)) == (s.skip(12)[0] as nat) + 256 * le_val(s.skip(12).skip(1)));
    }
    assert(s.skip(11).skip(1) =~= s.skip(12));
    assert(le_val(s.skip(11)) == 23310596375151006555436005708777119120412241254594) by {
        assert(le_val(s.skip(11)) == (s.skip(11)[0] as nat) + 256 * le_val(s.skip(11).skip(1)));
    }
    assert(s.skip(10).skip(1) =~= s.skip(11));
    assert(le_val(s.skip(10)) == 5967512672038657678191617461446942494825533761176226) by {
        assert(le_val(s.skip(10)) == (s.skip(10)[0] as nat) + 256 * le_val(s.skip(10).skip(1)));
    }
    assert(s.skip(9).skip(1) =~= s.skip(10));
    assert(le_val(s.skip(9)) == 1527683244041896365617054070130417278675336642861113906) by {
        assert(le_val(s.skip(9)) == (s.skip(9)[0] as nat) + 256 * le_val(s.skip(9).skip(1)));
    }
    assert(s.skip(8).skip(1) =~= s.skip(9));
    assert(le_val(s.skip(8)) == 391086910474725469597965841953386823340886180572445159982) by {
        assert(le_val(s.skip(8)) == (s.skip(8)[0] as nat) + 256 * le_val(s.skip(8).skip(1)));
    }
    assert(s.skip(7).skip(1) =~= s.skip(8));
    assert(le_val(s.skip(7)) == 100118249081529720217079255540067026775266862226545960955631) by {
        assert(le_val(s.skip(7)) == (s.skip(7)[0] as nat) + 256 * le_val(s.skip(7).skip(1)));
    }
    assert(s.skip(6).skip(1) =~= s.skip(7));
    assert(le_val(s.skip(6)) == 25630271764871608375572289418257158854468316729995766004641734) by {
        assert(le_val(s.skip(6)) == (s.skip(6)[0] as nat) + 256 * le_val(s.skip(6).skip(1)));
    }
    assert(s.skip(5).skip(1) =~= s.skip(6));
    assert(le_val(s.skip(5)) == 6561349571807131744146506091073832666743889082878916097188283909) by {
        assert(le_val(s.skip(5)) == (s.skip(5)[0] as nat) + 256 * le_val(s.skip(5).skip(1)));
    }
    assert(s.skip(4).skip(1) =~= s.skip(5));
    assert(le_val(s.skip(4)) == 1679705490382625726501505559314901162686435605217002520880200680706) by {
        assert(le_val(s.skip(4)) == (s.skip(4)[0] as nat) + 256 * le_val(s.skip(4).skip(1)));
    }
    assert(s.skip(3).skip(1) =~= s.skip(4));
    assert(le_val(s.skip(3)) == 430004605537952185984385423184614697647727514935552645345331374260753) by {
        assert(le_val(s.skip(3)) == (s.skip(3)[0] as nat) + 256 * le_val(s.skip(3).skip(1)));
    }
    assert(s.skip(2).skip(1) =~= s.skip(3));
    assert(le_val(s.skip(2)) == 110081179017715759612002668335261362597818243823501477208404831810752868) by {
        assert(le_val(s.skip(2)) == (s.skip(2)[0] as nat) + 256 * le_val(s.skip(2).skip(1)));
    }
    assert(s.skip(1).skip(1) =~= s.skip(2));
    assert(le_val(s.skip(1)) == 28180781828535234460672683093826908825041470418816378165351636943552734265) by {
        assert(le_val(s.skip(1)) == (s.skip(1)[0] as nat) + 256 * le_val(s.skip(1).skip(1)));
    }
    assert(s.skip(0).skip(1) =~= s.skip(1));
    assert(le_val(s.skip(0)) == 7214280148105020021932206872019688659210616427216992810330019057549499971851) by {
        assert(le_val(s.skip(0)) == (s.skip(0)[0] as nat) + 256 * le_val(s.skip(0).skip(1)));
    }
    assert(s.skip(0) =~= s);
}

/// The inverse square-root constant's bytes denote their documented decimal value.
#[verifier::rlimit(100)]
pub proof fn lemma_inv_sqrt_coeff_a_value()
    ensures
        le_val(inv_sqrt_coeff_a()) == 2957874849018779266517920829765869116077630550401372566248359756137677864698,
{
    let s = inv_sqrt_coeff_a();
    assert(s.skip(31).skip(1) =~= Seq::<u8>::empty());
    assert(le_val(s.skip(31)) == 6) by {
        assert(le_val(s.skip(31)) == (s.skip(31)[0] as nat) + 256 * le_val(s.skip(31).skip(1)));
    }
    assert(s.skip(30).skip(1) =~= s.skip(31));
    assert(le_val(s.skip(30)) == 1674) by {
        assert(le_val(s.skip(30)) == (s.skip(30)[0] as nat) + 256 * le_val(s.skip(30).skip(1)));
    }
    assert(s.skip(29).skip(1) =~= s.skip(30));
    assert(le_val(s.skip(29)) == 428569) by {
        assert(le_val(s.skip(29)) == (s.skip(29)[0] as nat) + 256 * le_val(s.skip(29).skip(1)));
    }
    assert(s.skip(28).skip(1) =~= s.skip(29));
    assert(le_val(s.skip(28)) == 109713675) by {
        assert(le_val(s.skip(28)) == (s.skip(28)[0] as nat) + 256 * le_val(s.skip(28).skip(1)));
    }
    assert(s.skip(27).skip(1) =~= s.skip(28));
    assert(le_val(s.skip(27)) == 28086701012) by {
        assert(le_val(s.skip(27)) == (s.skip(27)[0] as nat) + 256 * le_val(s.skip(27).skip(1)));
    }
    assert(s.skip(26).skip(1) =~= s.skip(27));
    assert(le_val(s.skip(26)) == 7190195459158) by {
        assert(le_val(s.skip(26)) == (s.skip(26)[0] as nat) + 256 * le_val(s.skip(26).skip(1)));
    }
    assert(s.skip(25).skip(1) =~= s.skip(26));
    assert(le_val(s.skip(25)) == 1840690037544508) by {
        assert(le_val(s.skip(25)) == (s.skip(25)[0] as nat) + 256 * le_val(s.skip(25).skip(1)));
    }
    assert(s.skip(24).skip(1) =~= s.skip(25));
    assert(le_val(s.skip(24)) == 471216649611394079) by {
        assert(le_val(s.skip(24)) == (s.skip(24)[0] as nat) + 256 * le_val(s.skip(24).skip(1)));
    }
    assert(s.skip(23).skip(1) =~= s.skip(24));
    assert(le_val(s.skip(23)) == 120631462300516884364) by {
        assert(le_val(s.skip(23)) == (s.skip(23)[0] as nat) + 256 * le_val(s.skip(23).skip(1)));
    }
    assert(s.skip(22).skip(1) =~= s.skip(23));
    assert(le_val(s.skip(22)) == 30881654348932322397409) by {
        assert(le_val(s.skip(22)) == (s.skip(22)[0] as nat) + 256 * le_val(s.skip(22).skip(1)));
    }
    assert(s.skip(21).skip(1) =~= s.skip(22));
    assert(le_val(s.skip(21)) == 7905703513326674533736911) by {
        assert(le_val(s.skip(21)) == (s.skip(21)[0] as nat) + 256 * le_val(s.skip(21).skip(1)));
    }
    assert(s.skip(20).skip(1) =~= s.skip(21));
    assert(le_val(s.skip(20)) == 2023860099411628680636649338) by {
        assert(le_val(s.skip(20)) == (s.skip(20)[0] as nat) + 256 * le_val(s.skip(20).skip(1)));
    }
    assert(s.skip(19).skip(1) =~= s.skip(20));
    assert(le_val(s.skip(19)) == 518108185449376942242982230657) by {
        assert(le_val(s.skip(19)) == (s.skip(19)[0] as nat) + 256 * le_val(s.skip(19).skip(1)));
    }
    assert(s.skip(18).skip(1) =~= s.skip(19));
    assert(le_val(s.skip(18)) == 132635695475040497214203451048302) by {
        assert(le_val(s.skip(18)) == (s.skip(18)[0] as nat) + 256 * le_val(s.skip(18).skip(1)));
    }
    assert(s.skip(17).skip(1) =~= s.skip(18));
    assert(le_val(s.skip(17)) == 33954738041610367286836083468365484) by {
        assert(le_val(s.skip(17)) == (s.skip(17)[0] as nat) + 256 * le_val(s.skip(17).skip(1)));
    }
    assert(s.skip(16).skip(1) =~= s.skip(17));
    assert(le_val(s.skip(16)) == 8692412938652254025430037367901564085) by {
        assert(le_val(s.skip(16)) == (s.skip(16)[0] as nat) + 256 * le_val(s.skip(16).skip(1)));
    }
    assert(s.skip(15).skip(1) =~= s.skip(16));
    assert(le_val(s.skip(15)) == 2225257712294977030510089566182800405796) by {
        assert(le_val(s.skip(15)) == (s.skip(15)[0] as nat) + 256 * le_val(s.skip(15).skip(1)));
    }
    assert(s.skip(14).skip(1) =~= s.skip(15));
    assert(le_val(s.skip(14)) == 569665974347514119810582928942796903883936) by {
        assert(le_val(s.skip(14)) == (s.skip(14)[0] as nat) + 256 * le_val(s.skip(14).skip(1)));
    }
    assert(s.skip(13).skip(1) =~= s.skip(14));
    assert(le_val(s.skip(13)) == 145834489432963614671509229809356007394287722) by {
        assert(le_val(s.skip(13)) == (s.skip(13)[0] as nat) + 256 * le_val(s.skip(13).skip(1)));
    }
    assert(s.skip(12).skip(1) =~= s.skip(13));
    assert(le_val(s.skip(12)) == 37333629294838685355906362831195137892937656937) by {
        assert(le_val(s.skip(12)) == (s.skip(12)[0] as nat) + 256 * le_val(s.skip(12).skip(1)));
    }
    assert(s.skip(11).skip(1) =~= s.skip(12));
    assert(le_val(s.skip(11)) == 9557409099478703451112028884785955300592040175923) by {
        assert(le_val(s.skip(11)) == (s.skip(11)[0] as nat) + 256 * le_val(s.skip(11).skip(1)));
    }
    assert(s.skip(10).skip(1) =~= s.skip(11));
    assert(le_val(s.skip(10)) == 2446696729466548083484679394505204556951562285036358) by {
        assert(le_val(s.skip(10)) == (s.skip(10)[0] as nat) + 256 * le_val(s.skip(10).skip(1)));
    }
    assert(s.skip(9).skip(1) =~= s.skip(10));
    assert(le_val(s.skip(9)) == 626354362743436309372077924993332366579599944969307649) by {
        assert(le_val(s.skip(9)) == (s.skip(9)[0] as nat) + 256 * le_val(s.skip(9).skip(1)));
    }
    assert(s.skip(8).skip(1) =~= s.skip(9));
    assert(le_val(s.skip(8)) == 160346716862319695199251948798293085844377585912142758313) by {
        assert(le_val(s.skip(8)) == (s.skip(8)[0] as nat) + 256 * le_val(s.skip(8).skip(1)));
    }
    assert(s.skip(7).skip(1) =~= s.skip(8));
    assert(le_val(s.skip(7)) == 41048759516753841971008498892363029976160661993508546128266) by {
        assert(le_val(s.skip(7)) == (s.skip(7)[0] as nat) + 256 * le_val(s.skip(7).skip(1)));
    }
    assert(s.skip(6).skip(1) =~= s.skip(7));
    assert(le_val(s.skip(6)) == 10508482436288983544578175716444935673897129470338187808836351) by {
        assert(le_val(s.skip(6)) == (s.skip(6)[0] as nat) + 256 * le_val(s.skip(6).skip(1)));
    }
    assert(s.skip(5).skip(1) =~= s.skip(6));
    assert(le_val(s.skip(5)) == 2690171503689979787412012983409903532517665144406576079062105924) by {
        assert(le_val(s.skip(5)) == (s.skip(5)[0] as nat) + 256 * le_val(s.skip(5).skip(1)));
    }
    assert(s.skip(4).skip(1) =~= s.skip(5));
    assert(le_val(s.skip(4)) == 688683904944634825577475323752935304324522276968083476239899116600) by {
        assert(le_val(s.skip(4)) == (s.skip(4)[0] as nat) + 256 * le_val(s.skip(4).skip(1)));
    }
    assert(s.skip(3).skip(1) =~= s.skip(4));
    assert(le_val(s.skip(3)) == 176303079665826515347833682880751437907077702903829369917414173849682) by {
        assert(le_val(s.skip(3)) == (s.skip(3)[0] as nat) + 256 * le_val(s.skip(3).skip(1)));
    }
    assert(s.skip(2).skip(1) =~= s.skip(3));
    assert(le_val(s.skip(2)) == 45133588394451587929045422817472368104211891943380318698858028505518766) by {
        assert(le_val(s.skip(2)) == (s.skip(2)[0] as nat) + 256 * le_val(s.skip(2).skip(1)));
    }
    assert(s.skip(1).skip(1) =~= s.skip(2));
    assert(le_val(s.skip(1)) == 11554198628979606509835628241272926234678244337505361586907655297412804158) by {
        assert(le_val(s.skip(1)) == (s.skip(1)[0] as nat) + 256 * le_val(s.skip(1).skip(1)));
    }
    assert(s.skip(0).skip(1) =~= s.skip(1));
    assert(le_val(s.skip(0)) == 2957874849018779266517920829765869116077630550401372566248359756137677864698) by {
        assert(le_val(s.skip(0)) == (s.skip(0)[0] as nat) + 256 * le_val(s.skip(0).skip(1)));
    }
    assert(s.skip(0) =~= s);
}

/// The unit-form coefficient's bytes denote their documented decimal value.
#[verifier::rlimit(100)]
pub proof fn lemma_d_unit_value()
    ensures
        le_val(d_unit()) == 9706598848417545097372247223557719406784115219466060233080913168975159366771,
{
    let s = d_unit();
    assert(s.skip(31).skip(1) =~= Seq::<u8>::empty());
    assert(le_val(s.skip(31)) == 21) by {
        assert(le_val(s.skip(31)) == (s.skip(31)[0] as nat) + 256 * le_val(s.skip(31).skip(1)));
    }
    assert(s.skip(30).skip(1) =~= s.skip(31));
    assert(le_val(s.skip(30)) == 5493) by {
        assert(le_val(s.skip(30)) == (s.skip(30)[0] as nat) + 256 * le_val(s.skip(30).skip(1)));
    }
    assert(s.skip(29).skip(1) =~= s.skip(30));
    assert(le_val(s.skip(29)) == 1406397) by {
        assert(le_val(s.skip(29)) == (s.skip(29)[0] as nat) + 256 * le_val(s.skip(29).skip(1)));
    }
    assert(s.skip(28).skip(1) =~= s.skip(29));
    assert(le_val(s.skip(28)) == 360037761) by {
        assert(le_val(s.skip(28)) == (s.skip(28)[0] as nat) + 256 * le_val(s.skip(28).skip(1)));
    }
    assert(s.skip(27).skip(1) =~= s.skip(28));
    assert(le_val(s.skip(27)) == 92169666946) by {
        assert(le_val(s.skip(27)) == (s.skip(27)[0] as nat) + 256 * le_val(s.skip(27).skip(1)));
    }
    assert(s.skip(26).skip(1) =~= s.skip(27));
    assert(le_val(s.skip(26)) == 23595434738192) by {
        assert(le_val(s.skip(26)) == (s.skip(26)[0] as nat) + 256 * le_val(s.skip(26).skip(1)));
    }
    assert(s.skip(25).skip(1) =~= s.skip(26));
    assert(le_val(s.skip(25)) == 6040431292977174) by {
        assert(le_val(s.skip(25)) == (s.skip(25)[0] as nat) + 256 * le_val(s.skip(25).skip(1)));
    }
    assert(s.skip(24).skip(1) =~= s.skip(25));
    assert(le_val(s.skip(24)) == 1546350411002156736) by {
        assert(le_val(s.skip(24)) == (s.skip(24)[0] as nat) + 256 * le_val(s.skip(24).skip(1)));
    }
    assert(s.skip(23).skip(1) =~= s.skip(24));
    assert(le_val(s.skip(23)) == 395865705216552124538) by {
        assert(le_val(s.skip(23)) == (s.skip(23)[0] as nat) + 256 * le_val(s.skip(23).skip(1)));
    }
    assert(s.skip(22).skip(1) =~= s.skip(23));
    assert(le_val(s.skip(22)) == 101341620535437343881823) by {
        assert(le_val(s.skip(22)) == (s.skip(22)[0] as nat) + 256 * le_val(s.skip(22).skip(1)));
    }
    assert(s.skip(21).skip(1) =~= s.skip(22));
    assert(le_val(s.skip(21)) == 25943454857071960033746898) by {
        assert(le_val(s.skip(21)) == (s.skip(21)[0] as nat) + 256 * le_val(s.skip(21).skip(1)));
    }
    assert(s.skip(20).skip(1) =~= s.skip(21));
    assert(le_val(s.skip(20)) == 6641524443410421768639206110) by {
        assert(le_val(s.skip(20)) == (s.skip(20)[0] as nat) + 256 * le_val(s.skip(20).skip(1)));
    }
    assert(s.skip(19).skip(1) =~= s.skip(20));
    assert(le_val(s.skip(19)) == 1700230257513067972771636764391) by {
        assert(le_val(s.skip(19)) == (s.skip(19)[0] as nat) + 256 * le_val(s.skip(19).skip(1)));
    }
    assert(s.skip(18).skip(1) =~= s.skip(19));
    assert(le_val(s.skip(18)) == 435258945923345401029539011684228) by {
        assert(le_val(s.skip(18)) == (s.skip(18)[0] as nat) + 256 * le_val(s.skip(18).skip(1)));
    }
    assert(s.skip(17).skip(1) =~= s.skip(18));
    assert(le_val(s.skip(17)) == 111426290156376422663561986991162438) by {
        assert(le_val(s.skip(17)) == (s.skip(17)[0] as nat) + 256 * le_val(s.skip(17).skip(1)));
    }
    assert(s.skip(16).skip(1) =~= s.skip(17));
    assert(le_val(s.skip(16)) == 28525130280032364201871868669737584225) by {
        assert(le_val(s.skip(16)) == (s.skip(16)[0] as nat) + 256 * le_val(s.skip(16).skip(1)));
    }
    assert(s.skip(15).skip(1) =~= s.skip(16));
    assert(le_val(s.skip(15)) == 7302433351688285235679198379452821561636) by {
        assert(le_val(s.skip(15)) == (s.skip(15)[0] as nat) + 256 * le_val(s.skip(15).skip(1)));
    }
    assert(s.skip(14).skip(1) =~= s.skip(15));
    assert(le_val(s.skip(14)) == 1869422938032201020333874785139922319778968) by {
        assert(le_val(s.skip(14)) == (s.skip(14)[0] as nat) + 256 * le_val(s.skip(14).skip(1)));
    }
    assert(s.skip(13).skip(1) =~= s.skip(14));
    assert(le_val(s.skip(13)) == 478572272136243461205471944995820113863415998) by {
        assert(le_val(s.skip(13)) == (s.skip(13)[0] as nat) + 256 * le_val(s.skip(13).skip(1)));
    }
    assert(s.skip(12).skip(1) =~= s.skip(13));
    assert(le_val(s.skip(12)) == 122514501666878326068600817918929949149034495726) by {
        assert(le_val(s.skip(12)) == (s.skip(12)[0] as nat) + 256 * le_val(s.skip(12).skip(1)));
    }
    assert(s.skip(11).skip(1) =~= s.skip(12));
    assert(le_val(s.skip(11)) == 31363712426720851473561809387246066982152830905998) by {
        assert(le_val(s.skip(11)) == (s.skip(11)[0] as nat) + 256 * le_val(s.skip(11).skip(1)));
    }
    assert(s.skip(10).skip(1) =~= s.skip(11));
    assert(le_val(s.skip(10)) == 8029110381240537977231823203134993147431124711935489) by {
        assert(le_val(s.skip(10)) == (s.skip(10)[0] as nat) + 256 * le_val(s.skip(10).skip(1)));
    }
    assert(s.skip(9).skip(1) =~= s.skip(10));
    assert(le_val(s.skip(9)) == 2055452257597577722171346740002558245742367926255485352) by {
        assert(le_val(s.skip(9)) == (s.skip(9)[0] as nat) + 256 * le_val(s.skip(9).skip(1)));
    }
    assert(s.skip(8).skip(1) =~= s.skip(9));
    assert(le_val(s.skip(8)) == 526195777944979896875864765440654910910046189121404250153) by {
        assert(le_val(s.skip(8)) == (s.skip(8)[0] as nat) + 256 * le_val(s.skip(8).skip(1)));
    }
    assert(s.skip(7).skip(1) =~= s.skip(8));
    assert(le_val(s.skip(7)) == 134706119153914853600221379952807657192971824415079488039283) by {
        assert(le_val(s.skip(7)) == (s.skip(7)[0] as nat) + 256 * le_val(s.skip(7).skip(1)));
    }
    assert(s.skip(6).skip(1) =~= s.skip(7));
    assert(le_val(s.skip(6)) == 34484766503402202521656673267918760241400787050260348938056556) by {
        assert(le_val(s.skip(6)) == (s.skip(6)[0] as nat) + 256 * le_val(s.skip(6).skip(1)));
    }
    assert(s.skip(5).skip(1) =~= s.skip(6));
    assert(le_val(s.skip(5)) == 8828100224870963845544108356587202621798601484866649328142478379) by {
        assert(le_val(s.skip(5)) == (s.skip(5)[0] as nat) + 256 * le_val(s.skip(5).skip(1)));
    }
    assert(s.skip(4).skip(1) =~= s.skip(5));
    assert(le_val(s.skip(4)) == 2259993657566966744459291739286323871180441980125862228004474465030) by {
        assert(le_val(s.skip(4)) == (s.skip(4)[0] as nat) + 256 * le_val(s.skip(4).skip(1)));
    }
    assert(s.skip(3).skip(1) =~= s.skip(4));
    assert(le_val(s.skip(3)) == 578558376337143486581578685257298911022193146912220730369145463047931) by {
        assert(le_val(s.skip(3)) == (s.skip(3)[0] as nat) + 256 * le_val(s.skip(3).skip(1)));
    }
    assert(s.skip(2).skip(1) =~= s.skip(3));
    assert(le_val(s.skip(2)) == 148110944342308732564884143425868521221681445609528506974501238540270376) by {
        assert(le_val(s.skip(2)) == (s.skip(2)[0] as nat) + 256 * le_val(s.skip(2).skip(1)));
    }
    assert(s.skip(1).skip(1) =~= s.skip(2));
    assert(le_val(s.skip(1)) == 37916401751631035536610340717022341432750450076039297785472317066309216276) by {
        assert(le_val(s.skip(1)) == (s.skip(1)[0] as nat) + 256 * le_val(s.skip(1).skip(1)));
    }
    assert(s.skip(0).skip(1) =~= s.skip(1));
    assert(le_val(s.skip(0)) == 9706598848417545097372247223557719406784115219466060233080913168975159366771) by {
        assert(le_val(s.skip(0)) == (s.skip(0)[0] as nat) + 256 * le_val(s.skip(0).skip(1)));
    }
    assert(s.skip(0) =~= s);
}

/// The conversion constants satisfy their defining relations: proved by
/// evaluating the constants and the modulus digit by digit.
#[verifier::rlimit(100)]
pub proof fn lemma_conversion_constants_valid()
    ensures
        conversion_constants_ok(),
{
    crate::curve::lemma_p_base_value();
    lemma_sqrt_coeff_a_value();
    lemma_inv_sqrt_coeff_a_value();
    lemma_d_unit_value();
    assert((7214280148105020021932206872019688659210616427216992810330019057549499971851nat * 7214280148105020021932206872019688659210616427216992810330019057549499971851nat) % 21888242871839275222246405745257275088548364400416034343698204186575808495617nat == (COEFF_A as nat) % 21888242871839275222246405745257275088548364400416034343698204186575808495617nat) by (nonlinear_arith);
    assert((7214280148105020021932206872019688659210616427216992810330019057549499971851nat * 2957874849018779266517920829765869116077630550401372566248359756137677864698nat) % 21888242871839275222246405745257275088548364400416034343698204186575808495617nat == 1nat % 21888242871839275222246405745257275088548364400416034343698204186575808495617nat) by (nonlinear_arith);
    assert((9706598848417545097372247223557719406784115219466060233080913168975159366771nat * (COEFF_A as nat)) % 21888242871839275222246405745257275088548364400416034343698204186575808495617nat == (COEFF_D as nat) % 21888242871839275222246405745257275088548364400416034343698204186575808495617nat) by (nonlinear_arith);
}

/// Key derivation's runtime checks are facts about fixed constants,
/// proved here once: derivation succeeds on every seed.
pub proof fn lemma_keygen_succeeds()
    ensures
        keygen_ok(),
{
    crate::curve::lemma_generator_on_curve();
    lemma_conversion_constants_valid();
}

/// A derived keypair: the secret scalar and the public point, both in
/// the representation of [`crate::curve`].
pub struct Keypair {
    pub secret: Vec<u8>,
    pub public: AffinePoint,
}

/// Relies on `rand::rngs::StdRng::from_seed` and `ark_ff::UniformRand`
/// for the scalar field: the draw is uniform over the field, a
/// deterministic function of the seed alone, and is returned as the
/// canonical 32-byte little-endian representative, hence below the
/// scalar-field modulus.
#[verifier::external_body]
fn sample_scalar(seed: &[u8; 32]) -> (r: Vec<u8>)
    ensures
        r@.len() == 32,
        le_val(r@) == scalar_of_seed(seed@),
        le_val(r@) < le_val(r_scalar()),
{
    let mut rng = rand::rngs::StdRng::from_seed(*seed);
    let sk = ark_ed_on_bn254::Fr::rand(&mut rng);
    sk.into_bigint().to_bytes_le()
}

/// Relies on `ark_ec::twisted_edwards` scalar multiplication over
/// `ark_ed_on_bn254` (the `a = 1` form of this curve): on a point of
/// that curve the group law is complete (`a = 1` is a square and the
/// coefficient is a non-square), so no projective denominator
/// vanishes, the result again satisfies the equation, and it is
/// returned in canonical affine coordinates below the base-field
/// modulus. The result is a deterministic function of the scalar value
/// and the point values; inputs are reduced modulo the respective
/// field moduli before use, which both equations are invariant under.
#[verifier::external_body]
fn unit_scalar_mul(scalar: &Vec<u8>, x: &Vec<u8>, y: &Vec<u8>) -> (r: (Vec<u8>, Vec<u8>))
    requires
        on_unit_curve(le_val(x@), le_val(y@)),
    ensures
        r.0@.len() == 32,
        r.1@.len() == 32,
        le_val(r.0@) < le_val(p_base()),
        le_val(r.1@) < le_val(p_base()),
        on_unit_curve(le_val(r.0@), le_val(r.1@)),
        (le_val(r.0@), le_val(r.1@)) == unit_smul(le_val(scalar@), le_val(x@), le_val(y@)),
{
    let fx = ark_ed_on_bn254::Fq::from_le_bytes_mod_order(x);
    let fy = ark_ed_on_bn254::Fq::from_le_bytes_mod_order(y);
    let s = ark_ed_on_bn254::Fr::from_le_bytes_mod_order(scalar);
    let pt = ark_ed_on_bn254::EdwardsAffine::new_unchecked(fx, fy);
    let q = (pt * s).into_affine();
    (q.x.into_bigint().to_bytes_le(), q.y.into_bigint().to_bytes_le())
}

/// Under the checked constant relations, a point satisfies the
/// `a = 168700` curve equation exactly when its image under
/// `x -> sqrt(a)*x` satisfies the `a = 1` equation: the two forms
/// describe one curve.
pub proof fn lemma_unit_form_equivalence(x: nat, y: nat)
    requires
        conversion_constants_ok(),
    ensures
        on_curve(x, y) <==> on_unit_curve((x * le_val(sqrt_coeff_a())) % le_val(p_base()), y),
{
    lemma_p_base_positive();
    let pm = le_val(p_base()) as int;
    let sa = le_val(sqrt_coeff_a()) as int;
    let du = le_val(d_unit()) as int;
    let a: int = COEFF_A as int;
    let d: int = COEFF_D as int;
    let xi = x as int;
    let yi = y as int;
    let u = (xi * sa) % pm;

    assert((u * u) % pm == (a * xi * xi) % pm) by {
        lemma_mul_mod_noop_general(xi * sa, xi * sa, pm);
        assert((xi * sa) * (xi * sa) == (xi * xi) * (sa * sa)) by (nonlinear_arith);
        lemma_mul_mod_noop_general(xi * xi, sa * sa, pm);
        lemma_mul_mod_noop_general(xi * xi, a, pm);
        assert((xi * xi) * a == a * xi * xi) by (nonlinear_arith);
    }

    assert((u * u + yi * yi) % pm == (a * xi * xi + yi * yi) % pm) by {
        lemma_add_mod_noop(u * u, yi * yi, pm);
        lemma_add_mod_noop(a * xi * xi, yi * yi, pm);
    }

    assert((du * u * u * yi * yi) % pm == (d * xi * xi * yi * yi) % pm) by {
        assert(du * u * u * yi * yi == (u * u) * (du * (yi * yi))) by (nonlinear_arith);
        lemma_mul_mod_noop_general(u * u, du * (yi * yi), pm);
        lemma_mul_mod_noop_general(a * xi * xi, du * (yi * yi), pm);
        assert((a * xi * xi) * (du * (yi * yi)) == (du * a) * ((xi * xi) * (yi * yi)))
            by (nonlinear_arith);
        lemma_mul_mod_noop_general(du * a, (xi * xi) * (yi * yi), pm);
        lemma_mul_mod_noop_general(d, (xi * xi) * (yi * yi), pm);
        assert(d * ((xi * xi) * (yi * yi)) == d * xi * xi * yi * yi) by (nonlinear_arith);
    }

    assert((1 + du * u * u * yi * yi) % pm == (1 + d * xi * xi * yi * yi) % pm) by {
        lemma_add_mod_noop(1, du * u * u * yi * yi, pm);
        lemma_add_mod_noop(1, d * xi * xi * yi * yi, pm);
    }
}

/// What [`generate_keypair`] promises of a returned keypair for a seed.
pub open spec fn keypair_from(seed: Seq<u8>, kp: Keypair) -> bool {
    let s = scalar_of_seed(seed);
    let q = unit_smul(s, unit_generator_x(), le_val(generator_y()));
    &&& kp.secret@.len() == 32
    &&& le_val(kp.secret@) == s
    &&& le_val(kp.secret@) < le_val(r_scalar())
    &&& kp.public.wf()
    &&& le_val(kp.public.x@) == (q.0 * le_val(inv_sqrt_coeff_a())) % le_val(p_base())
    &&& le_val(kp.public.y@) == q.1
    &&& on_curve(le_val(kp.public.x@), le_val(kp.public.y@))
}

/// The x-coordinate of the generator carried onto the `a = 1` form.
pub open spec fn unit_generator_x() -> nat {
    (le_val(generator_x()) * le_val(sqrt_coeff_a())) % le_val(p_base())
}

/// The two runtime checks that key derivation performs: the fixed
/// generator satisfies the curve equation and the conversion constants
/// satisfy their defining relations. Both are facts about fixed
/// constants, so derivation succeeds either always or never.
pub open spec fn keygen_ok() -> bool {
    on_curve(le_val(generator_x()), le_val(generator_y())) && conversion_constants_ok()
}

/// Derives a keypair from a 32-byte seed: draws the secret scalar from
/// a generator seeded with it and multiplies the fixed generator point
/// by the scalar. Every returned public point satisfies the curve
/// equation (see [`lemma_public_key_on_curve`]); the derivation is
/// deterministic in the seed (see [`lemma_keygen_deterministic`]).
pub fn generate_keypair(seed: &[u8; 32]) -> (r: Option<Keypair>)
    ensures
        r matches Some(kp) ==> keypair_from(seed@, kp),
        r is Some <==> keygen_ok(),
{
    let g = generator();
    if !is_on_curve(&g) {
        return None;
    }
    if !conversion_constants_check() {
        return None;
    }
    proof {
        lemma_p_base_positive();
    }
    let m = EdwardsConfig::base_modulus();
    let secret = sample_scalar(seed);
    let sa = make_sqrt_coeff_a();
    let gx_unit = big_rem32(&big_mul(&g.x, &sa), &m);
    proof {
        lemma_unit_form_equivalence(le_val(g.x@), le_val(g.y@));
    }
    let q = unit_scalar_mul(&secret, &gx_unit, &g.y);
    let isa = make_inv_sqrt_coeff_a();
    let px = big_rem32(&big_mul(&q.0, &isa), &m);
    proof {
        let pm = le_val(p_base()) as int;
        let sav = le_val(sqrt_coeff_a()) as int;
        let isav = le_val(inv_sqrt_coeff_a()) as int;
        let q0 = le_val(q.0@) as int;
        let pxv = le_val(px@) as int;
        assert((pxv * sav) % pm == q0) by {
            lemma_mul_mod_noop_general(q0 * isav, sav, pm);
            assert((q0 * isav) * sav == q0 * (sav * isav)) by (nonlinear_arith);
            lemma_mul_mod_noop_general(q0, sav * isav, pm);
            lemma_mul_mod_noop_general(q0, 1, pm);
            lemma_small_mod(le_val(q.0@), le_val(p_base()));
        }
        lemma_unit_form_equivalence(le_val(px@), le_val(q.1@));
        vstd::arithmetic::div_mod::lemma_mod_bound((le_val(q.0@) * isav) as int, pm);
    }
    let public = AffinePoint { x: px, y: q.1 };
    Some(Keypair { secret, public })
}

/// Every public point that key derivation hands out satisfies the
/// curve equation: for each seed, the scalar multiple of the generator
/// that [`generate_keypair`] returns lies on the curve.
pub proof fn lemma_public_key_on_curve(seed: Seq<u8>, kp: Keypair)
    requires
        keypair_from(seed, kp),
    ensures
        on_curve(le_val(kp.public.x@), le_val(kp.public.y@)),
{
}

/// Key generation is deterministic under a fixed seed: two keypairs
/// that [`generate_keypair`] returned for the same seed are identical,
/// byte for byte, in both the secret and the public point.
pub proof fn lemma_keygen_deterministic(seed: Seq<u8>, kp1: Keypair, kp2: Keypair)
    requires
        keypair_from(seed, kp1),
        keypair_from(seed, kp2),
    ensures
        kp1.secret@ == kp2.secret@,
        kp1.public.x@ == kp2.public.x@,
        kp1.public.y@ == kp2.public.y@,
{
    lemma_le_val_injective(kp1.secret@, kp2.secret@);
    lemma_le_val_injective(kp1.public.x@, kp2.public.x@);
    lemma_le_val_injective(kp1.public.y@, kp2.public.y@);
}

/// The constant [`sqrt_coeff_a`] as a byte vector.
pub fn make_sqrt_coeff_a() -> (r: Vec<u8>)
    ensures
        r@ == sqrt_coeff_a(),
{
    let v: Vec<u8> = vec![0x0bu8, 0x39, 0x64, 0x11, 0x02, 0x05, 0xc6, 0xef, 0x2e, 0x32, 0xa2,
        0xc2, 0x58, 0x27, 0x07, 0x49, 0xbf, 0xba, 0x91, 0x55, 0xfb, 0x1f, 0x41, 0xd1, 0xf8,
        0xa3, 0x38, 0xfb, 0x4a, 0x23, 0xf3, 0x0f];
    proof {
        assert(v@ =~= sqrt_coeff_a());
    }
    v
}

/// The constant [`inv_sqrt_coeff_a`] as a byte vector.
pub fn make_inv_sqrt_coeff_a() -> (r: Vec<u8>)
    ensures
        r@ == inv_sqrt_coeff_a(),
{
    let v: Vec<u8> = vec![0xfau8, 0x3e, 0xae, 0x52, 0x38, 0x44, 0xff, 0x8a, 0xa9, 0x01, 0x46,
        0x33, 0x69, 0x6a, 0xa0, 0x24, 0xb5, 0xac, 0x6e, 0x81, 0x7a, 0xcf, 0xe1, 0x8c, 0x1f,
        0x3c, 0x56, 0xd4, 0x0b, 0x19, 0x8a, 0x06];
    proof {
        assert(v@ =~= inv_sqrt_coeff_a());
    }
    v
}

/// The constant [`d_unit`] as a byte vector.
pub fn make_d_unit() -> (r: Vec<u8>)
    ensures
        r@ == d_unit(),
{
    let v: Vec<u8> = vec![0x73u8, 0x14, 0x28, 0xfb, 0x06, 0x2b, 0x6c, 0x73, 0x29, 0xa8, 0x01,
        0x8e, 0xee, 0xbe, 0x98, 0x24, 0x61, 0x46, 0x84, 0xe7, 0xde, 0xd2, 0x5f, 0x7a, 0xc0,
        0x16, 0x10, 0x82, 0x81, 0xbd, 0x75, 0x15];
    proof {
        assert(v@ =~= d_unit());
    }
    v
}

/// Whether the conversion constants satisfy their defining relations
/// over the base field; see [`conversion_constants_ok`].
pub fn conversion_constants_check() -> (r: bool)
    ensures
        r == conversion_constants_ok(),
{
    proof {
        lemma_p_base_positive();
    }
    let m = EdwardsConfig::base_modulus();
    let sa = make_sqrt_coeff_a();
    let isa = make_inv_sqrt_coeff_a();
    let du = make_d_unit();
    let a_bytes: Vec<u8> = vec![0xfcu8, 0x92, 0x02];
    let d_bytes: Vec<u8> = vec![0xf8u8, 0x92, 0x02];
    proof {
        assert(le_val(a_bytes@) == (COEFF_A as nat)) by {
            assert(le_val(a_bytes@) == (a_bytes@[0] as nat) + 256 * le_val(a_bytes@.skip(1)));
            assert(le_val(a_bytes@.skip(1)) == (a_bytes@.skip(1)[0] as nat) + 256 * le_val(
                a_bytes@.skip(1).skip(1)));
            assert(le_val(a_bytes@.skip(1).skip(1)) == (a_bytes@.skip(1).skip(1)[0] as nat) + 256
                * le_val(a_bytes@.skip(1).skip(1).skip(1)));
            assert(a_bytes@.skip(1).skip(1).skip(1) =~= Seq::<u8>::empty());
        }
        assert(le_val(d_bytes@) == (COEFF_D as nat)) by {
            assert(le_val(d_bytes@) == (d_bytes@[0] as nat) + 256 * le_val(d_bytes@.skip(1)));
            assert(le_val(d_bytes@.skip(1)) == (d_bytes@.skip(1)[0] as nat) + 256 * le_val(
                d_bytes@.skip(1).skip(1)));
            assert(le_val(d_bytes@.skip(1).skip(1)) == (d_bytes@.skip(1).skip(1)[0] as nat) + 256
                * le_val(d_bytes@.skip(1).skip(1).skip(1)));
            assert(d_bytes@.skip(1).skip(1).skip(1) =~= Seq::<u8>::empty());
        }
        assert(le_val(seq![0x01u8]) == 1) by {
            assert(le_val(seq![0x01u8]) == (seq![0x01u8][0] as nat) + 256 * le_val(
                seq![0x01u8].skip(1)));
            assert(seq![0x01u8].skip(1) =~= Seq::<u8>::empty());
        }
    }
    let one: Vec<u8> = vec![0x01u8];
    proof {
        assert(one@ =~= seq![0x01u8]);
    }
    let sq = big_rem(&big_mul(&sa, &sa), &m);
    let a_red = big_rem(&a_bytes, &m);
    let first = big_eq(&sq, &a_red);
    let prod = big_rem(&big_mul(&sa, &isa), &m);
    let one_red = big_rem(&one, &m);
    let second = big_eq(&prod, &one_red);
    let dua = big_rem(&big_mul(&du, &a_bytes), &m);
    let d_red = big_rem(&d_bytes, &m);
    let third = big_eq(&dua, &d_red);
    first && second && third
}

} // verus!
