//! Baby Jubjub curve parameters and point validation.
//!
//! The curve is the twisted Edwards curve `a*x^2 + y^2 = 1 + d*x^2*y^2`
//! with `a = 168700`, `d = 168696` over the prime base field whose
//! modulus equals the BN254 scalar-field modulus. Field elements are
//! little-endian byte vectors; see [`crate::bignat::le_val`].

use vstd::prelude::*;
use vstd::arithmetic::div_mod::{lemma_mul_mod_noop_general, lemma_small_mod};
use crate::bignat::{le_val, big_mul, big_add, big_rem, big_eq, big_mul_u64, big_add_u64,
    big_mod_inv, is_mod_inverse};

verus! {

/// Twisted Edwards coefficient `a`.
pub const COEFF_A: u64 = 168700;

/// Twisted Edwards coefficient `d`.
pub const COEFF_D: u64 = 168696;

/// Cofactor of the curve: the full group order is `8 * r` with `r` the
/// scalar-field modulus.
pub const COFACTOR: u64 = 8;

/// The base-field modulus, little-endian:
/// 21888242871839275222246405745257275088548364400416034343698204186575808495617.
pub open spec fn p_base() -> Seq<u8> {
    seq![0x01u8, 0x00, 0x00, 0xf0, 0x93, 0xf5, 0xe1, 0x43, 0x91, 0x70, 0xb9, 0x79, 0x48, 0xe8,
        0x33, 0x28, 0x5d, 0x58, 0x81, 0x81, 0xb6, 0x45, 0x50, 0xb8, 0x29, 0xa0, 0x31, 0xe1,
        0x72, 0x4e, 0x64, 0x30]
}

/// The scalar-field modulus (order of the prime-order subgroup),
/// little-endian:
/// 2736030358979909402780800718157159386076813972158567259200215660948447373041.
pub open spec fn r_scalar() -> Seq<u8> {
    seq![0xf1u8, 0x26, 0x21, 0x39, 0xdc, 0x97, 0x72, 0x67, 0x0a, 0xee, 0x20, 0x39, 0xb8, 0xed,
        0x3e, 0xab, 0x0b, 0x2b, 0x30, 0xd0, 0xb6, 0x08, 0x0a, 0x37, 0x05, 0x34, 0x26, 0x5c,
        0xce, 0x89, 0x0c, 0x06]
}

/// The inverse of the cofactor modulo the scalar-field modulus,
/// little-endian:
/// 2394026564107420727433200628387514462817212225638746351800188703329891451411.
pub open spec fn cofactor_inv() -> Seq<u8> {
    seq![0x13u8, 0x02, 0xfd, 0xb1, 0xe0, 0x44, 0x84, 0x1a, 0x49, 0xd0, 0xfc, 0x31, 0x01, 0x10,
        0xd7, 0x35, 0xaa, 0x25, 0x2a, 0xf6, 0x9f, 0xc7, 0x28, 0x90, 0x84, 0x6d, 0xa1, 0x90,
        0x94, 0xf8, 0x4a, 0x05]
}

/// x-coordinate of the fixed generator, little-endian:
/// 5299619240641551281634865583518297030282874472190772894086521144482721001553.
pub open spec fn generator_x() -> Seq<u8> {
    seq![0x51u8, 0x70, 0x95, 0xbb, 0xf6, 0xf3, 0x93, 0x28, 0xb6, 0xe0, 0x34, 0x05, 0x01, 0xd8,
        0xb8, 0x2a, 0xc1, 0x77, 0x62, 0x9d, 0xe0, 0xb2, 0xac, 0x4e, 0x9b, 0x73, 0x3e, 0xd6,
        0x6a, 0x7a, 0xb7, 0x0b]
}

/// y-coordinate of the fixed generator, little-endian:
/// 16950150798460657717958625567821834550301663161624707787222815936182638968203.
pub open spec fn generator_y() -> Seq<u8> {
    seq![0x8bu8, 0x7d, 0x2d, 0x87, 0x7a, 0x25, 0x3c, 0x4b, 0x77, 0x33, 0xe1, 0xb9, 0x1f, 0x05,
        0xe0, 0xfc, 0xed, 0xf9, 0x6b, 0xd1, 0x1c, 0x2e, 0x57, 0x25, 0x49, 0xb2, 0xa0, 0xf7,
        0x03, 0x72, 0x79, 0x25]
}

/// The twisted Edwards equation `a*x^2 + y^2 = 1 + d*x^2*y^2`, evaluated
/// over the base field on the values `x` and `y`.
pub open spec fn on_curve(x: nat, y: nat) -> bool {
    ((COEFF_A as nat) * x * x + y * y) % le_val(p_base())
        == (1 + (COEFF_D as nat) * x * x * y * y) % le_val(p_base())
}

/// The base-field modulus is a large positive number; in particular the
/// remainder wrappers may divide by it.
pub proof fn lemma_p_base_positive()
    ensures
        le_val(p_base()) > 0,
{
    assert(le_val(p_base()) == (p_base()[0] as nat) + 256 * le_val(p_base().skip(1)));
}

/// The scalar-field modulus is positive.
pub proof fn lemma_r_scalar_positive()
    ensures
        le_val(r_scalar()) > 0,
{
    assert(le_val(r_scalar()) == (r_scalar()[0] as nat) + 256 * le_val(r_scalar().skip(1)));
}

/// The documented cofactor inverse really inverts the cofactor modulo
/// the scalar-field modulus: the value of [`cofactor_inv`] times 8 is
/// 1 modulo the value of [`r_scalar`], both evaluated digit by digit.
#[verifier::rlimit(100)]
pub proof fn lemma_cofactor_inverse_valid()
    ensures
        (COFACTOR as nat) * le_val(cofactor_inv()) % le_val(r_scalar()) == 1nat % le_val(
            r_scalar(),
        ),
{
    assert(le_val(cofactor_inv()) == 2394026564107420727433200628387514462817212225638746351800188703329891451411) by {
        let s = cofactor_inv();
        assert(s.skip(31).skip(1) =~= Seq::<u8>::empty());
        assert(le_val(s.skip(31)) == 5) by {
            assert(le_val(s.skip(31)) == (s.skip(31)[0] as nat) + 256 * le_val(s.skip(31).skip(1)));
        }
        assert(s.skip(30).skip(1) =~= s.skip(31));
        assert(le_val(s.skip(30)) == 1354) by {
            assert(le_val(s.skip(30)) == (s.skip(30)[0] as nat) + 256 * le_val(s.skip(30).skip(1)));
        }
        assert(s.skip(29).skip(1) =~= s.skip(30));
        assert(le_val(s.skip(29)) == 346872) by {
            assert(le_val(s.skip(29)) == (s.skip(29)[0] as nat) + 256 * le_val(s.skip(29).skip(1)));
        }
        assert(s.skip(28).skip(1) =~= s.skip(29));
        assert(le_val(s.skip(28)) == 88799380) by {
            assert(le_val(s.skip(28)) == (s.skip(28)[0] as nat) + 256 * le_val(s.skip(28).skip(1)));
        }
        assert(s.skip(27).skip(1) =~= s.skip(28));
        assert(le_val(s.skip(27)) == 22732641424) by {
            assert(le_val(s.skip(27)) == (s.skip(27)[0] as nat) + 256 * le_val(s.skip(27).skip(1)));
        }
        assert(s.skip(26).skip(1) =~= s.skip(27));
        assert(le_val(s.skip(26)) == 5819556204705) by {
            assert(le_val(s.skip(26)) == (s.skip(26)[0] as nat) + 256 * le_val(s.skip(26).skip(1)));
        }
        assert(s.skip(25).skip(1) =~= s.skip(26));
        assert(le_val(s.skip(25)) == 1489806388404589) by {
            assert(le_val(s.skip(25)) == (s.skip(25)[0] as nat) + 256 * le_val(s.skip(25).skip(1)));
        }
        assert(s.skip(24).skip(1) =~= s.skip(25));
        assert(le_val(s.skip(24)) == 381390435431574916) by {
            assert(le_val(s.skip(24)) == (s.skip(24)[0] as nat) + 256 * le_val(s.skip(24).skip(1)));
        }
        assert(s.skip(23).skip(1) =~= s.skip(24));
        assert(le_val(s.skip(23)) == 97635951470483178640) by {
            assert(le_val(s.skip(23)) == (s.skip(23)[0] as nat) + 256 * le_val(s.skip(23).skip(1)));
        }
        assert(s.skip(22).skip(1) =~= s.skip(23));
        assert(le_val(s.skip(22)) == 24994803576443693731880) by {
            assert(le_val(s.skip(22)) == (s.skip(22)[0] as nat) + 256 * le_val(s.skip(22).skip(1)));
        }
        assert(s.skip(21).skip(1) =~= s.skip(22));
        assert(le_val(s.skip(21)) == 6398669715569585595361479) by {
            assert(le_val(s.skip(21)) == (s.skip(21)[0] as nat) + 256 * le_val(s.skip(21).skip(1)));
        }
        assert(s.skip(20).skip(1) =~= s.skip(21));
        assert(le_val(s.skip(20)) == 1638059447185813912412538783) by {
            assert(le_val(s.skip(20)) == (s.skip(20)[0] as nat) + 256 * le_val(s.skip(20).skip(1)));
        }
        assert(s.skip(19).skip(1) =~= s.skip(20));
        assert(le_val(s.skip(19)) == 419343218479568361577609928694) by {
            assert(le_val(s.skip(19)) == (s.skip(19)[0] as nat) + 256 * le_val(s.skip(19).skip(1)));
        }
        assert(s.skip(18).skip(1) =~= s.skip(19));
        assert(le_val(s.skip(18)) == 107351863930769500563868141745706) by {
            assert(le_val(s.skip(18)) == (s.skip(18)[0] as nat) + 256 * le_val(s.skip(18).skip(1)));
        }
        assert(s.skip(17).skip(1) =~= s.skip(18));
        assert(le_val(s.skip(17)) == 27482077166276992144350244286900773) by {
            assert(le_val(s.skip(17)) == (s.skip(17)[0] as nat) + 256 * le_val(s.skip(17).skip(1)));
        }
        assert(s.skip(16).skip(1) =~= s.skip(17));
        assert(le_val(s.skip(16)) == 7035411754566909988953662537446598058) by {
            assert(le_val(s.skip(16)) == (s.skip(16)[0] as nat) + 256 * le_val(s.skip(16).skip(1)));
        }
        assert(s.skip(15).skip(1) =~= s.skip(16));
        assert(le_val(s.skip(15)) == 1801065409169128957172137609586329102901) by {
            assert(le_val(s.skip(15)) == (s.skip(15)[0] as nat) + 256 * le_val(s.skip(15).skip(1)));
        }
        assert(s.skip(14).skip(1) =~= s.skip(15));
        assert(le_val(s.skip(14)) == 461072744747297013036067228054100250342871) by {
            assert(le_val(s.skip(14)) == (s.skip(14)[0] as nat) + 256 * le_val(s.skip(14).skip(1)));
        }
        assert(s.skip(13).skip(1) =~= s.skip(14));
        assert(le_val(s.skip(13)) == 118034622655308035337233210381849664087774992) by {
            assert(le_val(s.skip(13)) == (s.skip(13)[0] as nat) + 256 * le_val(s.skip(13).skip(1)));
        }
        assert(s.skip(12).skip(1) =~= s.skip(13));
        assert(le_val(s.skip(12)) == 30216863399758857046331701857753514006470397953) by {
            assert(le_val(s.skip(12)) == (s.skip(12)[0] as nat) + 256 * le_val(s.skip(12).skip(1)));
        }
        assert(s.skip(11).skip(1) =~= s.skip(12));
        assert(le_val(s.skip(11)) == 7735517030338267403860915675584899585656421876017) by {
            assert(le_val(s.skip(11)) == (s.skip(11)[0] as nat) + 256 * le_val(s.skip(11).skip(1)));
        }
        assert(s.skip(10).skip(1) =~= s.skip(11));
        assert(le_val(s.skip(10)) == 1980292359766596455388394412949734293928044000260604) by {
            assert(le_val(s.skip(10)) == (s.skip(10)[0] as nat) + 256 * le_val(s.skip(10).skip(1)));
        }
        assert(s.skip(9).skip(1) =~= s.skip(10));
        assert(le_val(s.skip(9)) == 506954844100248692579428969715131979245579264066714832) by {
            assert(le_val(s.skip(9)) == (s.skip(9)[0] as nat) + 256 * le_val(s.skip(9).skip(1)));
        }
        assert(s.skip(8).skip(1) =~= s.skip(9));
        assert(le_val(s.skip(8)) == 129780440089663665300333816247073786686868291601078997065) by {
            assert(le_val(s.skip(8)) == (s.skip(8)[0] as nat) + 256 * le_val(s.skip(8).skip(1)));
        }
        assert(s.skip(7).skip(1) =~= s.skip(8));
        assert(le_val(s.skip(7)) == 33223792662953898316885456959250889391838282649876223248666) by {
            assert(le_val(s.skip(7)) == (s.skip(7)[0] as nat) + 256 * le_val(s.skip(7).skip(1)));
        }
        assert(s.skip(6).skip(1) =~= s.skip(7));
        assert(le_val(s.skip(6)) == 8505290921716197969122676981568227684310600358368313151658628) by {
            assert(le_val(s.skip(6)) == (s.skip(6)[0] as nat) + 256 * le_val(s.skip(6).skip(1)));
        }
        assert(s.skip(5).skip(1) =~= s.skip(6));
        assert(le_val(s.skip(5)) == 2177354475959346680095405307281466287183513691742288166824608836) by {
            assert(le_val(s.skip(5)) == (s.skip(5)[0] as nat) + 256 * le_val(s.skip(5).skip(1)));
        }
        assert(s.skip(4).skip(1) =~= s.skip(5));
        assert(le_val(s.skip(4)) == 557402745845592750104423758664055369518979505086025770707099862240) by {
            assert(le_val(s.skip(4)) == (s.skip(4)[0] as nat) + 256 * le_val(s.skip(4).skip(1)));
        }
        assert(s.skip(3).skip(1) =~= s.skip(4));
        assert(le_val(s.skip(3)) == 142695102936471744026732482217998174596858753302022597301017564733617) by {
            assert(le_val(s.skip(3)) == (s.skip(3)[0] as nat) + 256 * le_val(s.skip(3).skip(1)));
        }
        assert(s.skip(2).skip(1) =~= s.skip(3));
        assert(le_val(s.skip(2)) == 36529946351736766470843515447807532696795840845317784909060496571806205) by {
            assert(le_val(s.skip(2)) == (s.skip(2)[0] as nat) + 256 * le_val(s.skip(2).skip(1)));
        }
        assert(s.skip(1).skip(1) =~= s.skip(2));
        assert(le_val(s.skip(1)) == 9351666266044612216535939954638728370379735256401352936719487122382388482) by {
            assert(le_val(s.skip(1)) == (s.skip(1)[0] as nat) + 256 * le_val(s.skip(1).skip(1)));
        }
        assert(s.skip(0).skip(1) =~= s.skip(1));
        assert(le_val(s.skip(0)) == 2394026564107420727433200628387514462817212225638746351800188703329891451411) by {
            assert(le_val(s.skip(0)) == (s.skip(0)[0] as nat) + 256 * le_val(s.skip(0).skip(1)));
        }
        assert(s.skip(0) =~= s);
        assert(le_val(cofactor_inv()) == 2394026564107420727433200628387514462817212225638746351800188703329891451411);
    }
    assert(le_val(r_scalar()) == 2736030358979909402780800718157159386076813972158567259200215660948447373041) by {
        let s = r_scalar();
        assert(s.skip(31).skip(1) =~= Seq::<u8>::empty());
        assert(le_val(s.skip(31)) == 6) by {
            assert(le_val(s.skip(31)) == (s.skip(31)[0] as nat) + 256 * le_val(s.skip(31).skip(1)));
        }
        assert(s.skip(30).skip(1) =~= s.skip(31));
        assert(le_val(s.skip(30)) == 1548) by {
            assert(le_val(s.skip(30)) == (s.skip(30)[0] as nat) + 256 * le_val(s.skip(30).skip(1)));
        }
        assert(s.skip(29).skip(1) =~= s.skip(30));
        assert(le_val(s.skip(29)) == 396425) by {
            assert(le_val(s.skip(29)) == (s.skip(29)[0] as nat) + 256 * le_val(s.skip(29).skip(1)));
        }
        assert(s.skip(28).skip(1) =~= s.skip(29));
        assert(le_val(s.skip(28)) == 101485006) by {
            assert(le_val(s.skip(28)) == (s.skip(28)[0] as nat) + 256 * le_val(s.skip(28).skip(1)));
        }
        assert(s.skip(27).skip(1) =~= s.skip(28));
        assert(le_val(s.skip(27)) == 25980161628) by {
            assert(le_val(s.skip(27)) == (s.skip(27)[0] as nat) + 256 * le_val(s.skip(27).skip(1)));
        }
        assert(s.skip(26).skip(1) =~= s.skip(27));
        assert(le_val(s.skip(26)) == 6650921376806) by {
            assert(le_val(s.skip(26)) == (s.skip(26)[0] as nat) + 256 * le_val(s.skip(26).skip(1)));
        }
        assert(s.skip(25).skip(1) =~= s.skip(26));
        assert(le_val(s.skip(25)) == 1702635872462388) by {
            assert(le_val(s.skip(25)) == (s.skip(25)[0] as nat) + 256 * le_val(s.skip(25).skip(1)));
        }
        assert(s.skip(24).skip(1) =~= s.skip(25));
        assert(le_val(s.skip(24)) == 435874783350371333) by {
            assert(le_val(s.skip(24)) == (s.skip(24)[0] as nat) + 256 * le_val(s.skip(24).skip(1)));
        }
        assert(s.skip(23).skip(1) =~= s.skip(24));
        assert(le_val(s.skip(23)) == 111583944537695061303) by {
            assert(le_val(s.skip(23)) == (s.skip(23)[0] as nat) + 256 * le_val(s.skip(23).skip(1)));
        }
        assert(s.skip(22).skip(1) =~= s.skip(23));
        assert(le_val(s.skip(22)) == 28565489801649935693578) by {
            assert(le_val(s.skip(22)) == (s.skip(22)[0] as nat) + 256 * le_val(s.skip(22).skip(1)));
        }
        assert(s.skip(21).skip(1) =~= s.skip(22));
        assert(le_val(s.skip(21)) == 7312765389222383537555976) by {
            assert(le_val(s.skip(21)) == (s.skip(21)[0] as nat) + 256 * le_val(s.skip(21).skip(1)));
        }
        assert(s.skip(20).skip(1) =~= s.skip(21));
        assert(le_val(s.skip(20)) == 1872067939640930185614330038) by {
            assert(le_val(s.skip(20)) == (s.skip(20)[0] as nat) + 256 * le_val(s.skip(20).skip(1)));
        }
        assert(s.skip(19).skip(1) =~= s.skip(20));
        assert(le_val(s.skip(19)) == 479249392548078127517268489936) by {
            assert(le_val(s.skip(19)) == (s.skip(19)[0] as nat) + 256 * le_val(s.skip(19).skip(1)));
        }
        assert(s.skip(18).skip(1) =~= s.skip(19));
        assert(le_val(s.skip(18)) == 122687844492308000644420733423664) by {
            assert(le_val(s.skip(18)) == (s.skip(18)[0] as nat) + 256 * le_val(s.skip(18).skip(1)));
        }
        assert(s.skip(17).skip(1) =~= s.skip(18));
        assert(le_val(s.skip(17)) == 31408088190030848164971707756458027) by {
            assert(le_val(s.skip(17)) == (s.skip(17)[0] as nat) + 256 * le_val(s.skip(17).skip(1)));
        }
        assert(s.skip(16).skip(1) =~= s.skip(17));
        assert(le_val(s.skip(16)) == 8040470576647897130232757185653254923) by {
            assert(le_val(s.skip(16)) == (s.skip(16)[0] as nat) + 256 * le_val(s.skip(16).skip(1)));
        }
        assert(s.skip(15).skip(1) =~= s.skip(16));
        assert(le_val(s.skip(15)) == 2058360467621861665339585839527233260459) by {
            assert(le_val(s.skip(15)) == (s.skip(15)[0] as nat) + 256 * le_val(s.skip(15).skip(1)));
        }
        assert(s.skip(14).skip(1) =~= s.skip(15));
        assert(le_val(s.skip(14)) == 526940279711196586326933974918971714677566) by {
            assert(le_val(s.skip(14)) == (s.skip(14)[0] as nat) + 256 * le_val(s.skip(14).skip(1)));
        }
        assert(s.skip(13).skip(1) =~= s.skip(14));
        assert(le_val(s.skip(13)) == 134896711606066326099695097579256758957457133) by {
            assert(le_val(s.skip(13)) == (s.skip(13)[0] as nat) + 256 * le_val(s.skip(13).skip(1)));
        }
        assert(s.skip(12).skip(1) =~= s.skip(13));
        assert(le_val(s.skip(12)) == 34533558171152979481521944980289730293109026232) by {
            assert(le_val(s.skip(12)) == (s.skip(12)[0] as nat) + 256 * le_val(s.skip(12).skip(1)));
        }
        assert(s.skip(11).skip(1) =~= s.skip(12));
        assert(le_val(s.skip(11)) == 8840590891815162747269617914954170955035910715449) by {
            assert(le_val(s.skip(11)) == (s.skip(11)[0] as nat) + 256 * le_val(s.skip(11).skip(1)));
        }
        assert(s.skip(10).skip(1) =~= s.skip(11));
        assert(le_val(s.skip(10)) == 2263191268304681663301022186228267764489193143154976) by {
            assert(le_val(s.skip(10)) == (s.skip(10)[0] as nat) + 256 * le_val(s.skip(10).skip(1)));
        }
        assert(s.skip(9).skip(1) =~= s.skip(10));
        assert(le_val(s.skip(9)) == 579376964685998505805061679674436547709233444647674094) by {
            assert(le_val(s.skip(9)) == (s.skip(9)[0] as nat) + 256 * le_val(s.skip(9).skip(1)));
        }
        assert(s.skip(8).skip(1) =~= s.skip(9));
        assert(le_val(s.skip(8)) == 148320502959615617486095789996655756213563761829804568074) by {
            assert(le_val(s.skip(8)) == (s.skip(8)[0] as nat) + 256 * le_val(s.skip(8).skip(1)));
        }
        assert(s.skip(7).skip(1) =~= s.skip(8));
        assert(le_val(s.skip(7)) == 37970048757661598076440522239143873590672323028429969427047) by {
            assert(le_val(s.skip(7)) == (s.skip(7)[0] as nat) + 256 * le_val(s.skip(7).skip(1)));
        }
        assert(s.skip(6).skip(1) =~= s.skip(7));
        assert(le_val(s.skip(6)) == 9720332481961369107568773693220831639212114695278072173324146) by {
            assert(le_val(s.skip(6)) == (s.skip(6)[0] as nat) + 256 * le_val(s.skip(6).skip(1)));
        }
        assert(s.skip(5).skip(1) =~= s.skip(6));
        assert(le_val(s.skip(5)) == 2488405115382110491537606065464532899638301361991186476370981527) by {
            assert(le_val(s.skip(5)) == (s.skip(5)[0] as nat) + 256 * le_val(s.skip(5).skip(1)));
        }
        assert(s.skip(4).skip(1) =~= s.skip(5));
        assert(le_val(s.skip(4)) == 637031709537820285833627152758920422307405148669743737950971271132) by {
            assert(le_val(s.skip(4)) == (s.skip(4)[0] as nat) + 256 * le_val(s.skip(4).skip(1)));
        }
        assert(s.skip(3).skip(1) =~= s.skip(4));
        assert(le_val(s.skip(3)) == 163080117641681993173408551106283628110695718059454396915448645409849) by {
            assert(le_val(s.skip(3)) == (s.skip(3)[0] as nat) + 256 * le_val(s.skip(3).skip(1)));
        }
        assert(s.skip(2).skip(1) =~= s.skip(3));
        assert(le_val(s.skip(2)) == 41748510116270590252392589083208608796338103823220325610354853224921377) by {
            assert(le_val(s.skip(2)) == (s.skip(2)[0] as nat) + 256 * le_val(s.skip(2).skip(1)));
        }
        assert(s.skip(1).skip(1) =~= s.skip(2));
        assert(le_val(s.skip(1)) == 10687618589765271104612502805301403851862554578744403356250842425579872550) by {
            assert(le_val(s.skip(1)) == (s.skip(1)[0] as nat) + 256 * le_val(s.skip(1).skip(1)));
        }
        assert(s.skip(0).skip(1) =~= s.skip(1));
        assert(le_val(s.skip(0)) == 2736030358979909402780800718157159386076813972158567259200215660948447373041) by {
            assert(le_val(s.skip(0)) == (s.skip(0)[0] as nat) + 256 * le_val(s.skip(0).skip(1)));
        }
        assert(s.skip(0) =~= s);
        assert(le_val(r_scalar()) == 2736030358979909402780800718157159386076813972158567259200215660948447373041);
    }
    assert((COFACTOR as nat) * 2394026564107420727433200628387514462817212225638746351800188703329891451411nat % 2736030358979909402780800718157159386076813972158567259200215660948447373041nat == 1nat % 2736030358979909402780800718157159386076813972158567259200215660948447373041nat) by (nonlinear_arith);
}

/// The base-field modulus bytes denote their documented decimal value.
#[verifier::rlimit(100)]
pub proof fn lemma_p_base_value()
    ensures
        le_val(p_base()) == 21888242871839275222246405745257275088548364400416034343698204186575808495617,
{
    let s = p_base();
    assert(s.skip(31).skip(1) =~= Seq::<u8>::empty());
    assert(le_val(s.skip(31)) == 48) by {
        assert(le_val(s.skip(31)) == (s.skip(31)[0] as nat) + 256 * le_val(s.skip(31).skip(1)));
    }
    assert(s.skip(30).skip(1) =~= s.skip(31));
    assert(le_val(s.skip(30)) == 12388) by {
        assert(le_val(s.skip(30)) == (s.skip(30)[0] as nat) + 256 * le_val(s.skip(30).skip(1)));
    }
    assert(s.skip(29).skip(1) =~= s.skip(30));
    assert(le_val(s.skip(29)) == 3171406) by {
        assert(le_val(s.skip(29)) == (s.skip(29)[0] as nat) + 256 * le_val(s.skip(29).skip(1)));
    }
    assert(s.skip(28).skip(1) =~= s.skip(29));
    assert(le_val(s.skip(28)) == 811880050) by {
        assert(le_val(s.skip(28)) == (s.skip(28)[0] as nat) + 256 * le_val(s.skip(28).skip(1)));
    }
    assert(s.skip(27).skip(1) =~= s.skip(28));
    assert(le_val(s.skip(27)) == 207841293025) by {
        assert(le_val(s.skip(27)) == (s.skip(27)[0] as nat) + 256 * le_val(s.skip(27).skip(1)));
    }
    assert(s.skip(26).skip(1) =~= s.skip(27));
    assert(le_val(s.skip(26)) == 53207371014449) by {
        assert(le_val(s.skip(26)) == (s.skip(26)[0] as nat) + 256 * le_val(s.skip(26).skip(1)));
    }
    assert(s.skip(25).skip(1) =~= s.skip(26));
    assert(le_val(s.skip(25)) == 13621086979699104) by {
        assert(le_val(s.skip(25)) == (s.skip(25)[0] as nat) + 256 * le_val(s.skip(25).skip(1)));
    }
    assert(s.skip(24).skip(1) =~= s.skip(25));
    assert(le_val(s.skip(24)) == 3486998266802970665) by {
        assert(le_val(s.skip(24)) == (s.skip(24)[0] as nat) + 256 * le_val(s.skip(24).skip(1)));
    }
    assert(s.skip(23).skip(1) =~= s.skip(24));
    assert(le_val(s.skip(23)) == 892671556301560490424) by {
        assert(le_val(s.skip(23)) == (s.skip(23)[0] as nat) + 256 * le_val(s.skip(23).skip(1)));
    }
    assert(s.skip(22).skip(1) =~= s.skip(23));
    assert(le_val(s.skip(22)) == 228523918413199485548624) by {
        assert(le_val(s.skip(22)) == (s.skip(22)[0] as nat) + 256 * le_val(s.skip(22).skip(1)));
    }
    assert(s.skip(21).skip(1) =~= s.skip(22));
    assert(le_val(s.skip(21)) == 58502123113779068300447813) by {
        assert(le_val(s.skip(21)) == (s.skip(21)[0] as nat) + 256 * le_val(s.skip(21).skip(1)));
    }
    assert(s.skip(20).skip(1) =~= s.skip(21));
    assert(le_val(s.skip(20)) == 14976543517127441484914640310) by {
        assert(le_val(s.skip(20)) == (s.skip(20)[0] as nat) + 256 * le_val(s.skip(20).skip(1)));
    }
    assert(s.skip(19).skip(1) =~= s.skip(20));
    assert(le_val(s.skip(19)) == 3833995140384625020138147919489) by {
        assert(le_val(s.skip(19)) == (s.skip(19)[0] as nat) + 256 * le_val(s.skip(19).skip(1)));
    }
    assert(s.skip(18).skip(1) =~= s.skip(19));
    assert(le_val(s.skip(18)) == 981502755938464005155365867389313) by {
        assert(le_val(s.skip(18)) == (s.skip(18)[0] as nat) + 256 * le_val(s.skip(18).skip(1)));
    }
    assert(s.skip(17).skip(1) =~= s.skip(18));
    assert(le_val(s.skip(17)) == 251264705520246785319773662051664216) by {
        assert(le_val(s.skip(17)) == (s.skip(17)[0] as nat) + 256 * le_val(s.skip(17).skip(1)));
    }
    assert(s.skip(16).skip(1) =~= s.skip(17));
    assert(le_val(s.skip(16)) == 64323764613183177041862057485226039389) by {
        assert(le_val(s.skip(16)) == (s.skip(16)[0] as nat) + 256 * le_val(s.skip(16).skip(1)));
    }
    assert(s.skip(15).skip(1) =~= s.skip(16));
    assert(le_val(s.skip(15)) == 16466883740974893322716686716217866083624) by {
        assert(le_val(s.skip(15)) == (s.skip(15)[0] as nat) + 256 * le_val(s.skip(15).skip(1)));
    }
    assert(s.skip(14).skip(1) =~= s.skip(15));
    assert(le_val(s.skip(14)) == 4215522237689572690615471799351773717407795) by {
        assert(le_val(s.skip(14)) == (s.skip(14)[0] as nat) + 256 * le_val(s.skip(14).skip(1)));
    }
    assert(s.skip(13).skip(1) =~= s.skip(14));
    assert(le_val(s.skip(13)) == 1079173692848530608797560780634054071656395752) by {
        assert(le_val(s.skip(13)) == (s.skip(13)[0] as nat) + 256 * le_val(s.skip(13).skip(1)));
    }
    assert(s.skip(12).skip(1) =~= s.skip(13));
    assert(le_val(s.skip(12)) == 276268465369223835852175559842317842344037312584) by {
        assert(le_val(s.skip(12)) == (s.skip(12)[0] as nat) + 256 * le_val(s.skip(12).skip(1)));
    }
    assert(s.skip(11).skip(1) =~= s.skip(12));
    assert(le_val(s.skip(11)) == 70724727134521301978156943319633367640073552021625) by {
        assert(le_val(s.skip(11)) == (s.skip(11)[0] as nat) + 256 * le_val(s.skip(11).skip(1)));
    }
    assert(s.skip(10).skip(1) =~= s.skip(11));
    assert(le_val(s.skip(10)) == 18105530146437453306408177489826142115858829317536185) by {
        assert(le_val(s.skip(10)) == (s.skip(10)[0] as nat) + 256 * le_val(s.skip(10).skip(1)));
    }
    assert(s.skip(9).skip(1) =~= s.skip(10));
    assert(le_val(s.skip(9)) == 4635015717487988046440493437395492381659860305289263472) by {
        assert(le_val(s.skip(9)) == (s.skip(9)[0] as nat) + 256 * le_val(s.skip(9).skip(1)));
    }
    assert(s.skip(8).skip(1) =~= s.skip(9));
    assert(le_val(s.skip(8)) == 1186564023676924939888766319973246049704924238154051448977) by {
        assert(le_val(s.skip(8)) == (s.skip(8)[0] as nat) + 256 * le_val(s.skip(8).skip(1)));
    }
    assert(s.skip(7).skip(1) =~= s.skip(8));
    assert(le_val(s.skip(7)) == 303760390061292784611524177913150988724460604967437170938179) by {
        assert(le_val(s.skip(7)) == (s.skip(7)[0] as nat) + 256 * le_val(s.skip(7).skip(1)));
    }
    assert(s.skip(6).skip(1) =~= s.skip(7));
    assert(le_val(s.skip(6)) == 77762659855690952860550189545766653113461914871663915760174049) by {
        assert(le_val(s.skip(6)) == (s.skip(6)[0] as nat) + 256 * le_val(s.skip(6).skip(1)));
    }
    assert(s.skip(5).skip(1) =~= s.skip(6));
    assert(le_val(s.skip(5)) == 19907240923056883932300848523716263197046250207145962434604556789) by {
        assert(le_val(s.skip(5)) == (s.skip(5)[0] as nat) + 256 * le_val(s.skip(5).skip(1)));
    }
    assert(s.skip(4).skip(1) =~= s.skip(5));
    assert(le_val(s.skip(4)) == 5096253676302562286669017222071363378443840053029366383258766538131) by {
        assert(le_val(s.skip(4)) == (s.skip(4)[0] as nat) + 256 * le_val(s.skip(4).skip(1)));
    }
    assert(s.skip(3).skip(1) =~= s.skip(4));
    assert(le_val(s.skip(3)) == 1304640941133455945387268408850269024881623053575517794114244233761776) by {
        assert(le_val(s.skip(3)) == (s.skip(3)[0] as nat) + 256 * le_val(s.skip(3).skip(1)));
    }
    assert(s.skip(2).skip(1) =~= s.skip(3));
    assert(le_val(s.skip(2)) == 333988080930164722019140712665668870369695501715332555293246523843014656) by {
        assert(le_val(s.skip(2)) == (s.skip(2)[0] as nat) + 256 * le_val(s.skip(2).skip(1)));
    }
    assert(s.skip(1).skip(1) =~= s.skip(2));
    assert(le_val(s.skip(1)) == 85500948718122168836900022442411230814642048439125134155071110103811751936) by {
        assert(le_val(s.skip(1)) == (s.skip(1)[0] as nat) + 256 * le_val(s.skip(1).skip(1)));
    }
    assert(s.skip(0).skip(1) =~= s.skip(1));
    assert(le_val(s.skip(0)) == 21888242871839275222246405745257275088548364400416034343698204186575808495617) by {
        assert(le_val(s.skip(0)) == (s.skip(0)[0] as nat) + 256 * le_val(s.skip(0).skip(1)));
    }
    assert(s.skip(0) =~= s);
}

/// The generator's x bytes denote their documented decimal value.
#[verifier::rlimit(100)]
pub proof fn lemma_generator_x_value()
    ensures
        le_val(generator_x()) == 5299619240641551281634865583518297030282874472190772894086521144482721001553,
{
    let s = generator_x();
    assert(s.skip(31).skip(1) =~= Seq::<u8>::empty());
    assert(le_val(s.skip(31)) == 11) by {
        assert(le_val(s.skip(31)) == (s.skip(31)[0] as nat) + 256 * le_val(s.skip(31).skip(1)));
    }
    assert(s.skip(30).skip(1) =~= s.skip(31));
    assert(le_val(s.skip(30)) == 2999) by {
        assert(le_val(s.skip(30)) == (s.skip(30)[0] as nat) + 256 * le_val(s.skip(30).skip(1)));
    }
    assert(s.skip(29).skip(1) =~= s.skip(30));
    assert(le_val(s.skip(29)) == 767866) by {
        assert(le_val(s.skip(29)) == (s.skip(29)[0] as nat) + 256 * le_val(s.skip(29).skip(1)));
    }
    assert(s.skip(28).skip(1) =~= s.skip(29));
    assert(le_val(s.skip(28)) == 196573802) by {
        assert(le_val(s.skip(28)) == (s.skip(28)[0] as nat) + 256 * le_val(s.skip(28).skip(1)));
    }
    assert(s.skip(27).skip(1) =~= s.skip(28));
    assert(le_val(s.skip(27)) == 50322893526) by {
        assert(le_val(s.skip(27)) == (s.skip(27)[0] as nat) + 256 * le_val(s.skip(27).skip(1)));
    }
    assert(s.skip(26).skip(1) =~= s.skip(27));
    assert(le_val(s.skip(26)) == 12882660742718) by {
        assert(le_val(s.skip(26)) == (s.skip(26)[0] as nat) + 256 * le_val(s.skip(26).skip(1)));
    }
    assert(s.skip(25).skip(1) =~= s.skip(26));
    assert(le_val(s.skip(25)) == 3297961150135923) by {
        assert(le_val(s.skip(25)) == (s.skip(25)[0] as nat) + 256 * le_val(s.skip(25).skip(1)));
    }
    assert(s.skip(24).skip(1) =~= s.skip(25));
    assert(le_val(s.skip(24)) == 844278054434796443) by {
        assert(le_val(s.skip(24)) == (s.skip(24)[0] as nat) + 256 * le_val(s.skip(24).skip(1)));
    }
    assert(s.skip(23).skip(1) =~= s.skip(24));
    assert(le_val(s.skip(23)) == 216135181935307889486) by {
        assert(le_val(s.skip(23)) == (s.skip(23)[0] as nat) + 256 * le_val(s.skip(23).skip(1)));
    }
    assert(s.skip(22).skip(1) =~= s.skip(23));
    assert(le_val(s.skip(22)) == 55330606575438819708588) by {
        assert(le_val(s.skip(22)) == (s.skip(22)[0] as nat) + 256 * le_val(s.skip(22).skip(1)));
    }
    assert(s.skip(21).skip(1) =~= s.skip(22));
    assert(le_val(s.skip(21)) == 14164635283312337845398706) by {
        assert(le_val(s.skip(21)) == (s.skip(21)[0] as nat) + 256 * le_val(s.skip(21).skip(1)));
    }
    assert(s.skip(20).skip(1) =~= s.skip(21));
    assert(le_val(s.skip(20)) == 3626146632527958488422068960) by {
        assert(le_val(s.skip(20)) == (s.skip(20)[0] as nat) + 256 * le_val(s.skip(20).skip(1)));
    }
    assert(s.skip(19).skip(1) =~= s.skip(20));
    assert(le_val(s.skip(19)) == 928293537927157373036049653917) by {
        assert(le_val(s.skip(19)) == (s.skip(19)[0] as nat) + 256 * le_val(s.skip(19).skip(1)));
    }
    assert(s.skip(18).skip(1) =~= s.skip(19));
    assert(le_val(s.skip(18)) == 237643145709352287497228711402850) by {
        assert(le_val(s.skip(18)) == (s.skip(18)[0] as nat) + 256 * le_val(s.skip(18).skip(1)));
    }
    assert(s.skip(17).skip(1) =~= s.skip(18));
    assert(le_val(s.skip(17)) == 60836645301594185599290550119129719) by {
        assert(le_val(s.skip(17)) == (s.skip(17)[0] as nat) + 256 * le_val(s.skip(17).skip(1)));
    }
    assert(s.skip(16).skip(1) =~= s.skip(17));
    assert(le_val(s.skip(16)) == 15574181197208111513418380830497208257) by {
        assert(le_val(s.skip(16)) == (s.skip(16)[0] as nat) + 256 * le_val(s.skip(16).skip(1)));
    }
    assert(s.skip(15).skip(1) =~= s.skip(16));
    assert(le_val(s.skip(15)) == 3986990386485276547435105492607285313834) by {
        assert(le_val(s.skip(15)) == (s.skip(15)[0] as nat) + 256 * le_val(s.skip(15).skip(1)));
    }
    assert(s.skip(14).skip(1) =~= s.skip(15));
    assert(le_val(s.skip(14)) == 1020669538940230796143387006107465040341688) by {
        assert(le_val(s.skip(14)) == (s.skip(14)[0] as nat) + 256 * le_val(s.skip(14).skip(1)));
    }
    assert(s.skip(13).skip(1) =~= s.skip(14));
    assert(le_val(s.skip(13)) == 261291401968699083812707073563511050327472344) by {
        assert(le_val(s.skip(13)) == (s.skip(13)[0] as nat) + 256 * le_val(s.skip(13).skip(1)));
    }
    assert(s.skip(12).skip(1) =~= s.skip(13));
    assert(le_val(s.skip(12)) == 66890598903986965456053010832258828883832920065) by {
        assert(le_val(s.skip(12)) == (s.skip(12)[0] as nat) + 256 * le_val(s.skip(12).skip(1)));
    }
    assert(s.skip(11).skip(1) =~= s.skip(12));
    assert(le_val(s.skip(11)) == 17123993319420663156749570773058260194261227536645) by {
        assert(le_val(s.skip(11)) == (s.skip(11)[0] as nat) + 256 * le_val(s.skip(11).skip(1)));
    }
    assert(s.skip(10).skip(1) =~= s.skip(11));
    assert(le_val(s.skip(10)) == 4383742289771689768127890117902914609730874249381172) by {
        assert(le_val(s.skip(10)) == (s.skip(10)[0] as nat) + 256 * le_val(s.skip(10).skip(1)));
    }
    assert(s.skip(9).skip(1) =~= s.skip(10));
    assert(le_val(s.skip(9)) == 1122238026181552580640739870183146140091103807841580256) by {
        assert(le_val(s.skip(9)) == (s.skip(9)[0] as nat) + 256 * le_val(s.skip(9).skip(1)));
    }
    assert(s.skip(8).skip(1) =~= s.skip(9));
    assert(le_val(s.skip(8)) == 287292934702477460644029406766885411863322574807444545718) by {
        assert(le_val(s.skip(8)) == (s.skip(8)[0] as nat) + 256 * le_val(s.skip(8).skip(1)));
    }
    assert(s.skip(7).skip(1) =~= s.skip(8));
    assert(le_val(s.skip(7)) == 73546991283834229924871528132322665437010579150705803703848) by {
        assert(le_val(s.skip(7)) == (s.skip(7)[0] as nat) + 256 * le_val(s.skip(7).skip(1)));
    }
    assert(s.skip(6).skip(1) =~= s.skip(7));
    assert(le_val(s.skip(6)) == 18828029768661562860767111201874602351874708262580685748185235) by {
        assert(le_val(s.skip(6)) == (s.skip(6)[0] as nat) + 256 * le_val(s.skip(6).skip(1)));
    }
    assert(s.skip(5).skip(1) =~= s.skip(6));
    assert(le_val(s.skip(5)) == 4819975620777360092356380467679898202079925315220655551535420403) by {
        assert(le_val(s.skip(5)) == (s.skip(5)[0] as nat) + 256 * le_val(s.skip(5).skip(1)));
    }
    assert(s.skip(4).skip(1) =~= s.skip(5));
    assert(le_val(s.skip(4)) == 1233913758919004183643233399726053939732460880696487821193067623414) by {
        assert(le_val(s.skip(4)) == (s.skip(4)[0] as nat) + 256 * le_val(s.skip(4).skip(1)));
    }
    assert(s.skip(3).skip(1) =~= s.skip(4));
    assert(le_val(s.skip(3)) == 315881922283265071012667750329869808571509985458300882225425311594171) by {
        assert(le_val(s.skip(3)) == (s.skip(3)[0] as nat) + 256 * le_val(s.skip(3).skip(1)));
    }
    assert(s.skip(2).skip(1) =~= s.skip(3));
    assert(le_val(s.skip(2)) == 80865772104515858179242944084446670994306556277325025849708879768107925) by {
        assert(le_val(s.skip(2)) == (s.skip(2)[0] as nat) + 256 * le_val(s.skip(2).skip(1)));
    }
    assert(s.skip(1).skip(1) =~= s.skip(2));
    assert(le_val(s.skip(1)) == 20701637658756059693886193685618347774542478406995206617525473220635628912) by {
        assert(le_val(s.skip(1)) == (s.skip(1)[0] as nat) + 256 * le_val(s.skip(1).skip(1)));
    }
    assert(s.skip(0).skip(1) =~= s.skip(1));
    assert(le_val(s.skip(0)) == 5299619240641551281634865583518297030282874472190772894086521144482721001553) by {
        assert(le_val(s.skip(0)) == (s.skip(0)[0] as nat) + 256 * le_val(s.skip(0).skip(1)));
    }
    assert(s.skip(0) =~= s);
}

/// The generator's y bytes denote their documented decimal value.
#[verifier::rlimit(100)]
pub proof fn lemma_generator_y_value()
    ensures
        le_val(generator_y()) == 16950150798460657717958625567821834550301663161624707787222815936182638968203,
{
    let s = generator_y();
    assert(s.skip(31).skip(1) =~= Seq::<u8>::empty());
    assert(le_val(s.skip(31)) == 37) by {
        assert(le_val(s.skip(31)) == (s.skip(31)[0] as nat) + 256 * le_val(s.skip(31).skip(1)));
    }
    assert(s.skip(30).skip(1) =~= s.skip(31));
    assert(le_val(s.skip(30)) == 9593) by {
        assert(le_val(s.skip(30)) == (s.skip(30)[0] as nat) + 256 * le_val(s.skip(30).skip(1)));
    }
    assert(s.skip(29).skip(1) =~= s.skip(30));
    assert(le_val(s.skip(29)) == 2455922) by {
        assert(le_val(s.skip(29)) == (s.skip(29)[0] as nat) + 256 * le_val(s.skip(29).skip(1)));
    }
    assert(s.skip(28).skip(1) =~= s.skip(29));
    assert(le_val(s.skip(28)) == 628716035) by {
        assert(le_val(s.skip(28)) == (s.skip(28)[0] as nat) + 256 * le_val(s.skip(28).skip(1)));
    }
    assert(s.skip(27).skip(1) =~= s.skip(28));
    assert(le_val(s.skip(27)) == 160951305207) by {
        assert(le_val(s.skip(27)) == (s.skip(27)[0] as nat) + 256 * le_val(s.skip(27).skip(1)));
    }
    assert(s.skip(26).skip(1) =~= s.skip(27));
    assert(le_val(s.skip(26)) == 41203534133152) by {
        assert(le_val(s.skip(26)) == (s.skip(26)[0] as nat) + 256 * le_val(s.skip(26).skip(1)));
    }
    assert(s.skip(25).skip(1) =~= s.skip(26));
    assert(le_val(s.skip(25)) == 10548104738087090) by {
        assert(le_val(s.skip(25)) == (s.skip(25)[0] as nat) + 256 * le_val(s.skip(25).skip(1)));
    }
    assert(s.skip(24).skip(1) =~= s.skip(25));
    assert(le_val(s.skip(24)) == 2700314812950295113) by {
        assert(le_val(s.skip(24)) == (s.skip(24)[0] as nat) + 256 * le_val(s.skip(24).skip(1)));
    }
    assert(s.skip(23).skip(1) =~= s.skip(24));
    assert(le_val(s.skip(23)) == 691280592115275548965) by {
        assert(le_val(s.skip(23)) == (s.skip(23)[0] as nat) + 256 * le_val(s.skip(23).skip(1)));
    }
    assert(s.skip(22).skip(1) =~= s.skip(23));
    assert(le_val(s.skip(22)) == 176967831581510540535127) by {
        assert(le_val(s.skip(22)) == (s.skip(22)[0] as nat) + 256 * le_val(s.skip(22).skip(1)));
    }
    assert(s.skip(21).skip(1) =~= s.skip(22));
    assert(le_val(s.skip(21)) == 45303764884866698376992558) by {
        assert(le_val(s.skip(21)) == (s.skip(21)[0] as nat) + 256 * le_val(s.skip(21).skip(1)));
    }
    assert(s.skip(20).skip(1) =~= s.skip(21));
    assert(le_val(s.skip(20)) == 11597763810525874784510094876) by {
        assert(le_val(s.skip(20)) == (s.skip(20)[0] as nat) + 256 * le_val(s.skip(20).skip(1)));
    }
    assert(s.skip(19).skip(1) =~= s.skip(20));
    assert(le_val(s.skip(19)) == 2969027535494623944834584288465) by {
        assert(le_val(s.skip(19)) == (s.skip(19)[0] as nat) + 256 * le_val(s.skip(19).skip(1)));
    }
    assert(s.skip(18).skip(1) =~= s.skip(19));
    assert(le_val(s.skip(18)) == 760071049086623729877653577847147) by {
        assert(le_val(s.skip(18)) == (s.skip(18)[0] as nat) + 256 * le_val(s.skip(18).skip(1)));
    }
    assert(s.skip(17).skip(1) =~= s.skip(18));
    assert(le_val(s.skip(17)) == 194578188566175674848679315928869881) by {
        assert(le_val(s.skip(17)) == (s.skip(17)[0] as nat) + 256 * le_val(s.skip(17).skip(1)));
    }
    assert(s.skip(16).skip(1) =~= s.skip(17));
    assert(le_val(s.skip(16)) == 49812016272940972761261904877790689773) by {
        assert(le_val(s.skip(16)) == (s.skip(16)[0] as nat) + 256 * le_val(s.skip(16).skip(1)));
    }
    assert(s.skip(15).skip(1) =~= s.skip(16));
    assert(le_val(s.skip(15)) == 12751876165872889026883047648714416582140) by {
        assert(le_val(s.skip(15)) == (s.skip(15)[0] as nat) + 256 * le_val(s.skip(15).skip(1)));
    }
    assert(s.skip(14).skip(1) =~= s.skip(15));
    assert(le_val(s.skip(14)) == 3264480298463459590882060198070890645028064) by {
        assert(le_val(s.skip(14)) == (s.skip(14)[0] as nat) + 256 * le_val(s.skip(14).skip(1)));
    }
    assert(s.skip(13).skip(1) =~= s.skip(14));
    assert(le_val(s.skip(13)) == 835706956406645655265807410706148005127184389) by {
        assert(le_val(s.skip(13)) == (s.skip(13)[0] as nat) + 256 * le_val(s.skip(13).skip(1)));
    }
    assert(s.skip(12).skip(1) =~= s.skip(13));
    assert(le_val(s.skip(12)) == 213940980840101287748046697140773889312559203615) by {
        assert(le_val(s.skip(12)) == (s.skip(12)[0] as nat) + 256 * le_val(s.skip(12).skip(1)));
    }
    assert(s.skip(11).skip(1) =~= s.skip(12));
    assert(le_val(s.skip(11)) == 54768891095065929663499954468038115664015156125625) by {
        assert(le_val(s.skip(11)) == (s.skip(11)[0] as nat) + 256 * le_val(s.skip(11).skip(1)));
    }
    assert(s.skip(10).skip(1) =~= s.skip(11));
    assert(le_val(s.skip(10)) == 14020836120336877993855988343817757609987879968160225) by {
        assert(le_val(s.skip(10)) == (s.skip(10)[0] as nat) + 256 * le_val(s.skip(10).skip(1)));
    }
    assert(s.skip(9).skip(1) =~= s.skip(10));
    assert(le_val(s.skip(9)) == 3589334046806240766427133016017345948156897271849017651) by {
        assert(le_val(s.skip(9)) == (s.skip(9)[0] as nat) + 256 * le_val(s.skip(9).skip(1)));
    }
    assert(s.skip(8).skip(1) =~= s.skip(9));
    assert(le_val(s.skip(8)) == 918869515982397636205346052100440562728165701593348518775) by {
        assert(le_val(s.skip(8)) == (s.skip(8)[0] as nat) + 256 * le_val(s.skip(8).skip(1)));
    }
    assert(s.skip(7).skip(1) =~= s.skip(8));
    assert(le_val(s.skip(7)) == 235230596091493794868568589337712784058410419607897220806475) by {
        assert(le_val(s.skip(7)) == (s.skip(7)[0] as nat) + 256 * le_val(s.skip(7).skip(1)));
    }
    assert(s.skip(6).skip(1) =~= s.skip(7));
    assert(le_val(s.skip(6)) == 60219032599422411486353558870454472718953067419621688526457660) by {
        assert(le_val(s.skip(6)) == (s.skip(6)[0] as nat) + 256 * le_val(s.skip(6).skip(1)));
    }
    assert(s.skip(5).skip(1) =~= s.skip(6));
    assert(le_val(s.skip(5)) == 15416072345452137340506511070836345016051985259423152262773160997) by {
        assert(le_val(s.skip(5)) == (s.skip(5)[0] as nat) + 256 * le_val(s.skip(5).skip(1)));
    }
    assert(s.skip(4).skip(1) =~= s.skip(5));
    assert(le_val(s.skip(4)) == 3946514520435747159169666834134104324109308226412326979269929215354) by {
        assert(le_val(s.skip(4)) == (s.skip(4)[0] as nat) + 256 * le_val(s.skip(4).skip(1)));
    }
    assert(s.skip(3).skip(1) =~= s.skip(4));
    assert(le_val(s.skip(3)) == 1010307717231551272747434709538330706971982905961555706693101879130759) by {
        assert(le_val(s.skip(3)) == (s.skip(3)[0] as nat) + 256 * le_val(s.skip(3).skip(1)));
    }
    assert(s.skip(2).skip(1) =~= s.skip(3));
    assert(le_val(s.skip(2)) == 258638775611277125823343285641812660984827623926158260913434081057474349) by {
        assert(le_val(s.skip(2)) == (s.skip(2)[0] as nat) + 256 * le_val(s.skip(2).skip(1)));
    }
    assert(s.skip(1).skip(1) =~= s.skip(2));
    assert(le_val(s.skip(1)) == 66211526556486944210775881124304041212115871725096514793839124750713433469) by {
        assert(le_val(s.skip(1)) == (s.skip(1)[0] as nat) + 256 * le_val(s.skip(1).skip(1)));
    }
    assert(s.skip(0).skip(1) =~= s.skip(1));
    assert(le_val(s.skip(0)) == 16950150798460657717958625567821834550301663161624707787222815936182638968203) by {
        assert(le_val(s.skip(0)) == (s.skip(0)[0] as nat) + 256 * le_val(s.skip(0).skip(1)));
    }
    assert(s.skip(0) =~= s);
}

/// The fixed generator constants satisfy the curve equation
/// `168700*x^2 + y^2 = 1 + 168696*x^2*y^2` over the base field.
#[verifier::rlimit(100)]
pub proof fn lemma_generator_on_curve()
    ensures
        on_curve(le_val(generator_x()), le_val(generator_y())),
{
    lemma_p_base_value();
    lemma_generator_x_value();
    lemma_generator_y_value();
    assert(((COEFF_A as nat) * 5299619240641551281634865583518297030282874472190772894086521144482721001553nat * 5299619240641551281634865583518297030282874472190772894086521144482721001553nat + 16950150798460657717958625567821834550301663161624707787222815936182638968203nat * 16950150798460657717958625567821834550301663161624707787222815936182638968203nat) % 21888242871839275222246405745257275088548364400416034343698204186575808495617nat == (1 + (
    COEFF_D as nat) * 5299619240641551281634865583518297030282874472190772894086521144482721001553nat * 5299619240641551281634865583518297030282874472190772894086521144482721001553nat * 16950150798460657717958625567821834550301663161624707787222815936182638968203nat * 16950150798460657717958625567821834550301663161624707787222815936182638968203nat) % 21888242871839275222246405745257275088548364400416034343698204186575808495617nat) by (nonlinear_arith);
}

/// The conversion divisor `a - d = 4` is invertible in the base field,
/// so [`montgomery_from_edwards`] always succeeds.
#[verifier::rlimit(100)]
pub proof fn lemma_montgomery_conversion_succeeds()
    ensures
        exists|k: nat| #[trigger] is_mod_inverse(k, (COEFF_A - COEFF_D) as nat, le_val(p_base())),
{
    lemma_p_base_value();
    assert((16416182153879456416684804308942956316411273300312025757773653139931856371713nat * 4nat) % 21888242871839275222246405745257275088548364400416034343698204186575808495617nat == 1nat % 21888242871839275222246405745257275088548364400416034343698204186575808495617nat) by (nonlinear_arith);
    assert(is_mod_inverse(16416182153879456416684804308942956316411273300312025757773653139931856371713nat, (COEFF_A - COEFF_D) as nat, le_val(p_base())));
}

/// A point in affine coordinates, each coordinate a little-endian
/// byte vector denoting a base-field value.
pub struct AffinePoint {
    pub x: Vec<u8>,
    pub y: Vec<u8>,
}

impl AffinePoint {
    /// Coordinates are canonical 32-byte little-endian base-field values.
    pub open spec fn wf(&self) -> bool {
        self.x@.len() == 32 && self.y@.len() == 32 && le_val(self.x@) < le_val(p_base())
            && le_val(self.y@) < le_val(p_base())
    }
}

/// Curve parameters in Montgomery form `B*y^2 = x^3 + A*x^2 + x`,
/// obtained from the twisted Edwards coefficients by the standard
/// conversion `A = 2(a+d)/(a-d)`, `B = 4/(a-d)` over the base field.
pub struct MontgomeryParams {
    pub coeff_a: Vec<u8>,
    pub coeff_b: Vec<u8>,
}

/// The fixed curve configuration: moduli, coefficients, cofactor data
/// and the generator, as documented constants.
pub struct EdwardsConfig;

impl EdwardsConfig {
    /// The base-field modulus as bytes.
    pub fn base_modulus() -> (r: Vec<u8>)
        ensures
            r@ == p_base(),
    {
        let v: Vec<u8> = vec![0x01u8, 0x00, 0x00, 0xf0, 0x93, 0xf5, 0xe1, 0x43, 0x91, 0x70, 0xb9,
            0x79, 0x48, 0xe8, 0x33, 0x28, 0x5d, 0x58, 0x81, 0x81, 0xb6, 0x45, 0x50, 0xb8, 0x29,
            0xa0, 0x31, 0xe1, 0x72, 0x4e, 0x64, 0x30];
        proof {
            assert(v@ =~= p_base());
        }
        v
    }

    /// The scalar-field modulus as bytes.
    pub fn scalar_modulus() -> (r: Vec<u8>)
        ensures
            r@ == r_scalar(),
    {
        let v: Vec<u8> = vec![0xf1u8, 0x26, 0x21, 0x39, 0xdc, 0x97, 0x72, 0x67, 0x0a, 0xee, 0x20,
            0x39, 0xb8, 0xed, 0x3e, 0xab, 0x0b, 0x2b, 0x30, 0xd0, 0xb6, 0x08, 0x0a, 0x37, 0x05,
            0x34, 0x26, 0x5c, 0xce, 0x89, 0x0c, 0x06];
        proof {
            assert(v@ =~= r_scalar());
        }
        v
    }

    /// The inverse of the cofactor modulo the scalar-field modulus.
    pub fn cofactor_inverse() -> (r: Vec<u8>)
        ensures
            r@ == cofactor_inv(),
    {
        let v: Vec<u8> = vec![0x13u8, 0x02, 0xfd, 0xb1, 0xe0, 0x44, 0x84, 0x1a, 0x49, 0xd0, 0xfc,
            0x31, 0x01, 0x10, 0xd7, 0x35, 0xaa, 0x25, 0x2a, 0xf6, 0x9f, 0xc7, 0x28, 0x90, 0x84,
            0x6d, 0xa1, 0x90, 0x94, 0xf8, 0x4a, 0x05];
        proof {
            assert(v@ =~= cofactor_inv());
        }
        v
    }

    /// Whether the documented cofactor inverse is really the inverse of
    /// the cofactor modulo the scalar-field modulus.
    pub fn cofactor_inverse_checks() -> (r: bool)
        ensures
            r == ((COFACTOR as nat) * le_val(cofactor_inv()) % le_val(r_scalar())
                == 1nat % le_val(r_scalar())),
    {
        proof {
            lemma_r_scalar_positive();
        }
        let m = Self::scalar_modulus();
        let inv = Self::cofactor_inverse();
        let prod = big_mul_u64(&inv, COFACTOR);
        let lhs = big_rem(&prod, &m);
        let one: Vec<u8> = vec![0x01u8];
        let rhs = big_rem(&one, &m);
        proof {
            assert(le_val(one@) == 1) by {
                assert(le_val(one@) == (one@[0] as nat) + 256 * le_val(one@.skip(1)));
                assert(one@.skip(1) =~= Seq::<u8>::empty());
            }
            assert(le_val(inv@) * (COFACTOR as nat) == (COFACTOR as nat) * le_val(inv@));
        }
        big_eq(&lhs, &rhs)
    }
}

/// Converts the twisted Edwards coefficients to their Montgomery-form
/// dual `A = 2(a+d)/(a-d)`, `B = 4/(a-d)` over the base field. The two
/// representations describe the same curve; this conversion is the one
/// source of the Montgomery constants, so the two forms cannot diverge.
/// The divisions are witnessed: the returned coefficients lie below the
/// modulus, satisfy their defining products modulo it, and are proved
/// to be exactly the documented values `A = 168698`, `B = 1`.
/// Conversion succeeds exactly when `a - d` has an inverse in the base
/// field, which [`lemma_montgomery_conversion_succeeds`] shows it has.
pub fn montgomery_from_edwards() -> (r: Option<MontgomeryParams>)
    ensures
        r is Some <==> exists|k: nat|
            #[trigger] is_mod_inverse(k, (COEFF_A - COEFF_D) as nat, le_val(p_base())),
        r matches Some(mp) ==> le_val(mp.coeff_a@) * ((COEFF_A - COEFF_D) as nat)
            % le_val(p_base()) == ((2 * (COEFF_A + COEFF_D)) as nat) % le_val(p_base()),
        r matches Some(mp) ==> le_val(mp.coeff_b@) * ((COEFF_A - COEFF_D) as nat)
            % le_val(p_base()) == 4nat % le_val(p_base()),
        r matches Some(mp) ==> le_val(mp.coeff_a@) < le_val(p_base()) && le_val(mp.coeff_b@)
            < le_val(p_base()),
        r matches Some(mp) ==> le_val(mp.coeff_a@) == 168698 && le_val(mp.coeff_b@) == 1,
{
    proof {
        lemma_p_base_positive();
    }
    let m = EdwardsConfig::base_modulus();
    let diff_bytes: Vec<u8> = vec![4u8];
    proof {
        assert(le_val(diff_bytes@) == (diff_bytes@[0] as nat) + 256 * le_val(diff_bytes@.skip(1)));
        assert(diff_bytes@.skip(1) =~= Seq::<u8>::empty());
    }
    let inv = match big_mod_inv(&diff_bytes, &m) {
        None => {
            return None;
        },
        Some(inv) => inv,
    };
    let a_scaled = big_mul_u64(&inv, 2 * (COEFF_A + COEFF_D));
    let coeff_a = big_rem(&a_scaled, &m);
    let b_scaled = big_mul_u64(&inv, 4);
    let coeff_b = big_rem(&b_scaled, &m);
    proof {
        let iv = le_val(inv@) as int;
        let pm = le_val(p_base()) as int;
        let s: int = 2 * (COEFF_A + COEFF_D) as int;
        assert(is_mod_inverse(le_val(inv@), (COEFF_A - COEFF_D) as nat, le_val(p_base())));
        assert((iv * 4) % pm == 1int % pm);
        vstd::arithmetic::div_mod::lemma_mod_bound((iv * s) as int, pm);
        vstd::arithmetic::div_mod::lemma_mod_bound((iv * 4) as int, pm);
        assert(le_val(coeff_a@) == (iv * s) % pm);
        lemma_mul_mod_noop_general(iv * s, 4, pm);
        assert((iv * s) * 4 == s * (iv * 4)) by (nonlinear_arith);
        lemma_mul_mod_noop_general(s, iv * 4, pm);
        lemma_mul_mod_noop_general(s, 1, pm);
        assert(((iv * s) % pm) * 4 % pm == s % pm);
        assert(le_val(coeff_b@) == (iv * 4) % pm);
        lemma_mul_mod_noop_general(iv * 4, 4, pm);
        assert((iv * 4) * 4 == 4 * (iv * 4)) by (nonlinear_arith);
        lemma_mul_mod_noop_general(4, iv * 4, pm);
        lemma_mul_mod_noop_general(4, 1, pm);
        assert(((iv * 4) % pm) * 4 % pm == 4int % pm);

        lemma_p_base_value();
        let k4: int = 16416182153879456416684804308942956316411273300312025757773653139931856371713int;
        let ca = le_val(coeff_a@) as int;
        let cb = le_val(coeff_b@) as int;
        assert((16416182153879456416684804308942956316411273300312025757773653139931856371713int * 4) % 21888242871839275222246405745257275088548364400416034343698204186575808495617int == 1int % 21888242871839275222246405745257275088548364400416034343698204186575808495617int) by (nonlinear_arith);
        assert((674792int * 16416182153879456416684804308942956316411273300312025757773653139931856371713int) % 21888242871839275222246405745257275088548364400416034343698204186575808495617int == 168698int) by (nonlinear_arith);
        assert((4int * 16416182153879456416684804308942956316411273300312025757773653139931856371713int) % 21888242871839275222246405745257275088548364400416034343698204186575808495617int == 1int) by (nonlinear_arith);
        lemma_small_mod(le_val(coeff_a@), le_val(p_base()));
        lemma_small_mod(le_val(coeff_b@), le_val(p_base()));
        assert(ca == (ca * (k4 * 4)) % pm) by {
            lemma_mul_mod_noop_general(ca, k4 * 4, pm);
            lemma_mul_mod_noop_general(ca, 1, pm);
        }
        assert(ca * (k4 * 4) == (ca * 4) * k4) by (nonlinear_arith);
        assert(ca == 168698) by {
            lemma_mul_mod_noop_general(ca * 4, k4, pm);
            assert((ca * 4) % pm == s % pm);
            lemma_mul_mod_noop_general(s, k4, pm);
        }
        assert(cb == (cb * (k4 * 4)) % pm) by {
            lemma_mul_mod_noop_general(cb, k4 * 4, pm);
            lemma_mul_mod_noop_general(cb, 1, pm);
        }
        assert(cb * (k4 * 4) == (cb * 4) * k4) by (nonlinear_arith);
        assert(cb == 1) by {
            lemma_mul_mod_noop_general(cb * 4, k4, pm);
            assert((cb * 4) % pm == 4int % pm);
            lemma_mul_mod_noop_general(4, k4, pm);
        }
    }
    Some(MontgomeryParams { coeff_a, coeff_b })
}

/// The fixed generator of the prime-order subgroup, as a documented
/// constant. Whether it satisfies the curve equation is checked by
/// [`is_on_curve`], not assumed here.
pub fn generator() -> (r: AffinePoint)
    ensures
        r.x@ == generator_x(),
        r.y@ == generator_y(),
{
    let x: Vec<u8> = vec![0x51u8, 0x70, 0x95, 0xbb, 0xf6, 0xf3, 0x93, 0x28, 0xb6, 0xe0, 0x34,
        0x05, 0x01, 0xd8, 0xb8, 0x2a, 0xc1, 0x77, 0x62, 0x9d, 0xe0, 0xb2, 0xac, 0x4e, 0x9b,
        0x73, 0x3e, 0xd6, 0x6a, 0x7a, 0xb7, 0x0b];
    let y: Vec<u8> = vec![0x8bu8, 0x7d, 0x2d, 0x87, 0x7a, 0x25, 0x3c, 0x4b, 0x77, 0x33, 0xe1,
        0xb9, 0x1f, 0x05, 0xe0, 0xfc, 0xed, 0xf9, 0x6b, 0xd1, 0x1c, 0x2e, 0x57, 0x25, 0x49,
        0xb2, 0xa0, 0xf7, 0x03, 0x72, 0x79, 0x25];
    proof {
        assert(x@ =~= generator_x());
        assert(y@ =~= generator_y());
    }
    AffinePoint { x, y }
}

/// Evaluates the twisted Edwards equation on the point's coordinate
/// values over the base field.
pub fn is_on_curve(pt: &AffinePoint) -> (r: bool)
    ensures
        r == on_curve(le_val(pt.x@), le_val(pt.y@)),
{
    proof {
        lemma_p_base_positive();
    }
    let m = EdwardsConfig::base_modulus();
    let xx = big_mul(&pt.x, &pt.x);
    let yy = big_mul(&pt.y, &pt.y);
    let axx = big_mul_u64(&xx, COEFF_A);
    let left_sum = big_add(&axx, &yy);
    let lhs = big_rem(&left_sum, &m);
    let xxyy = big_mul(&xx, &yy);
    let dxxyy = big_mul_u64(&xxyy, COEFF_D);
    let right_sum = big_add_u64(&dxxyy, 1);
    let rhs = big_rem(&right_sum, &m);
    let ghost x = le_val(pt.x@);
    let ghost y = le_val(pt.y@);
    proof {
        assert(x * x * (COEFF_A as nat) == (COEFF_A as nat) * x * x) by (nonlinear_arith);
        assert(x * x * (y * y) * (COEFF_D as nat) == (COEFF_D as nat) * x * x * y * y)
            by (nonlinear_arith);
    }
    big_eq(&lhs, &rhs)
}

} // verus!
