//! Concrete modular-exponentiation facts about the modulus, computed step by
//! step with square-and-multiply so that each step unfolds the definition once.
use vstd::prelude::*;
use vstd::arithmetic::power::*;
use vstd::arithmetic::div_mod::*;
use vstd::arithmetic::mul::*;

verus! {

/// Square-and-multiply exponentiation modulo `m`.
pub open spec fn pow_mod(b: nat, e: nat, m: nat) -> nat
    decreases e,
{
    if e == 0 {
        1nat % m
    } else if e % 2 == 0 {
        let h = pow_mod(b, e / 2, m);
        (h * h) % m
    } else {
        ((b % m) * pow_mod(b, (e - 1) as nat, m)) % m
    }
}

/// Square-and-multiply agrees with `pow` followed by reduction.
pub proof fn lemma_pow_mod_is_pow(b: nat, e: nat, m: nat)
    requires
        m > 0,
    ensures
        pow_mod(b, e, m) == pow(b as int, e) % (m as int),
    decreases e,
{
    if e == 0 {
        lemma_pow0(b as int);
    } else if e % 2 == 0 {
        let k = (e / 2) as nat;
        lemma_pow_mod_is_pow(b, k, m);
        lemma_mul_mod_noop(pow(b as int, k), pow(b as int, k), m as int);
        lemma_pow_adds(b as int, k, k);
        assert(k + k == e);
    } else {
        let k = (e - 1) as nat;
        lemma_pow_mod_is_pow(b, k, m);
        lemma_mul_mod_noop(b as int, pow(b as int, k), m as int);
        lemma_mod_twice(b as int, m as int);
        lemma_mul_mod_noop_left(b as int, pow(b as int, k) % (m as int), m as int);
        lemma_pow_adds(b as int, 1, k);
        lemma_pow1(b as int);
        assert(1 + k == e);
    }
}

/// 7 is a quadratic non-residue modulo q: 7^((q-1)/2) = q - 1.
pub proof fn lemma_pow_seven_half()
    ensures
        pow_mod(7, 9223372034707292160, 18446744069414584321) == 18446744069414584320,
{
    assert(pow_mod(7, 0, 18446744069414584321) == 1);
    assert(pow_mod(7, 1, 18446744069414584321) == (7nat * 1nat) % 18446744069414584321nat);
    assert(pow_mod(7, 1, 18446744069414584321) == 7);
    assert(pow_mod(7, 2, 18446744069414584321) == (7nat * 7nat) % 18446744069414584321nat);
    assert(pow_mod(7, 2, 18446744069414584321) == 49);
    assert(pow_mod(7, 3, 18446744069414584321) == (7nat * 49nat) % 18446744069414584321nat);
    assert(pow_mod(7, 3, 18446744069414584321) == 343);
    assert(pow_mod(7, 6, 18446744069414584321) == (343nat * 343nat) % 18446744069414584321nat);
    assert(pow_mod(7, 6, 18446744069414584321) == 117649);
    assert(pow_mod(7, 7, 18446744069414584321) == (7nat * 117649nat) % 18446744069414584321nat);
    assert(pow_mod(7, 7, 18446744069414584321) == 823543);
    assert(pow_mod(7, 14, 18446744069414584321) == (823543nat * 823543nat) % 18446744069414584321nat);
    assert(pow_mod(7, 14, 18446744069414584321) == 678223072849);
    assert(pow_mod(7, 15, 18446744069414584321) == (7nat * 678223072849nat) % 18446744069414584321nat);
    assert(pow_mod(7, 15, 18446744069414584321) == 4747561509943);
    assert(pow_mod(7, 30, 18446744069414584321) == (4747561509943nat * 4747561509943nat) % 18446744069414584321nat);
    assert(pow_mod(7, 30, 18446744069414584321) == 1582037354089406189);
    assert(pow_mod(7, 31, 18446744069414584321) == (7nat * 1582037354089406189nat) % 18446744069414584321nat);
    assert(pow_mod(7, 31, 18446744069414584321) == 11074261478625843323);
    assert(pow_mod(7, 62, 18446744069414584321) == (11074261478625843323nat * 11074261478625843323nat) % 18446744069414584321nat);
    assert(pow_mod(7, 62, 18446744069414584321) == 14911712358349047125);
    assert(pow_mod(7, 63, 18446744069414584321) == (7nat * 14911712358349047125nat) % 18446744069414584321nat);
    assert(pow_mod(7, 63, 18446744069414584321) == 12148266161370408270);
    assert(pow_mod(7, 126, 18446744069414584321) == (12148266161370408270nat * 12148266161370408270nat) % 18446744069414584321nat);
    assert(pow_mod(7, 126, 18446744069414584321) == 14177331716484271384);
    assert(pow_mod(7, 127, 18446744069414584321) == (7nat * 14177331716484271384nat) % 18446744069414584321nat);
    assert(pow_mod(7, 127, 18446744069414584321) == 7007601668316978083);
    assert(pow_mod(7, 254, 18446744069414584321) == (7007601668316978083nat * 7007601668316978083nat) % 18446744069414584321nat);
    assert(pow_mod(7, 254, 18446744069414584321) == 1160753142525841411);
    assert(pow_mod(7, 255, 18446744069414584321) == (7nat * 1160753142525841411nat) % 18446744069414584321nat);
    assert(pow_mod(7, 255, 18446744069414584321) == 8125271997680889877);
    assert(pow_mod(7, 510, 18446744069414584321) == (8125271997680889877nat * 8125271997680889877nat) % 18446744069414584321nat);
    assert(pow_mod(7, 510, 18446744069414584321) == 10915923311382173605);
    assert(pow_mod(7, 511, 18446744069414584321) == (7nat * 10915923311382173605nat) % 18446744069414584321nat);
    assert(pow_mod(7, 511, 18446744069414584321) == 2624486902016877951);
    assert(pow_mod(7, 1022, 18446744069414584321) == (2624486902016877951nat * 2624486902016877951nat) % 18446744069414584321nat);
    assert(pow_mod(7, 1022, 18446744069414584321) == 1179017105118043277);
    assert(pow_mod(7, 1023, 18446744069414584321) == (7nat * 1179017105118043277nat) % 18446744069414584321nat);
    assert(pow_mod(7, 1023, 18446744069414584321) == 8253119735826302939);
    assert(pow_mod(7, 2046, 18446744069414584321) == (8253119735826302939nat * 8253119735826302939nat) % 18446744069414584321nat);
    assert(pow_mod(7, 2046, 18446744069414584321) == 13682469552810377440);
    assert(pow_mod(7, 2047, 18446744069414584321) == (7nat * 13682469552810377440nat) % 18446744069414584321nat);
    assert(pow_mod(7, 2047, 18446744069414584321) == 3543566522599720475);
    assert(pow_mod(7, 4094, 18446744069414584321) == (3543566522599720475nat * 3543566522599720475nat) % 18446744069414584321nat);
    assert(pow_mod(7, 4094, 18446744069414584321) == 12252646851770615269);
    assert(pow_mod(7, 4095, 18446744069414584321) == (7nat * 12252646851770615269nat) % 18446744069414584321nat);
    assert(pow_mod(7, 4095, 18446744069414584321) == 11981551684735969599);
    assert(pow_mod(7, 8190, 18446744069414584321) == (11981551684735969599nat * 11981551684735969599nat) % 18446744069414584321nat);
    assert(pow_mod(7, 8190, 18446744069414584321) == 9343193256669382154);
    assert(pow_mod(7, 8191, 18446744069414584321) == (7nat * 9343193256669382154nat) % 18446744069414584321nat);
    assert(pow_mod(7, 8191, 18446744069414584321) == 10062120588441922115);
    assert(pow_mod(7, 16382, 18446744069414584321) == (10062120588441922115nat * 10062120588441922115nat) % 18446744069414584321nat);
    assert(pow_mod(7, 16382, 18446744069414584321) == 4133221502128927102);
    assert(pow_mod(7, 16383, 18446744069414584321) == (7nat * 4133221502128927102nat) % 18446744069414584321nat);
    assert(pow_mod(7, 16383, 18446744069414584321) == 10485806445487905393);
    assert(pow_mod(7, 32766, 18446744069414584321) == (10485806445487905393nat * 10485806445487905393nat) % 18446744069414584321nat);
    assert(pow_mod(7, 32766, 18446744069414584321) == 5861853314594190514);
    assert(pow_mod(7, 32767, 18446744069414584321) == (7nat * 5861853314594190514nat) % 18446744069414584321nat);
    assert(pow_mod(7, 32767, 18446744069414584321) == 4139485063330164956);
    assert(pow_mod(7, 65534, 18446744069414584321) == (4139485063330164956nat * 4139485063330164956nat) % 18446744069414584321nat);
    assert(pow_mod(7, 65534, 18446744069414584321) == 7004045467739516513);
    assert(pow_mod(7, 65535, 18446744069414584321) == (7nat * 7004045467739516513nat) % 18446744069414584321nat);
    assert(pow_mod(7, 65535, 18446744069414584321) == 12134830135347446949);
    assert(pow_mod(7, 131070, 18446744069414584321) == (12134830135347446949nat * 12134830135347446949nat) % 18446744069414584321nat);
    assert(pow_mod(7, 131070, 18446744069414584321) == 618113109518621269);
    assert(pow_mod(7, 131071, 18446744069414584321) == (7nat * 618113109518621269nat) % 18446744069414584321nat);
    assert(pow_mod(7, 131071, 18446744069414584321) == 4326791766630348883);
    assert(pow_mod(7, 262142, 18446744069414584321) == (4326791766630348883nat * 4326791766630348883nat) % 18446744069414584321nat);
    assert(pow_mod(7, 262142, 18446744069414584321) == 13205783127219969319);
    assert(pow_mod(7, 262143, 18446744069414584321) == (7nat * 13205783127219969319nat) % 18446744069414584321nat);
    assert(pow_mod(7, 262143, 18446744069414584321) == 206761543466863628);
    assert(pow_mod(7, 524286, 18446744069414584321) == (206761543466863628nat * 206761543466863628nat) % 18446744069414584321nat);
    assert(pow_mod(7, 524286, 18446744069414584321) == 14617186517222294718);
    assert(pow_mod(7, 524287, 18446744069414584321) == (7nat * 14617186517222294718nat) % 18446744069414584321nat);
    assert(pow_mod(7, 524287, 18446744069414584321) == 10086585273483141421);
    assert(pow_mod(7, 1048574, 18446744069414584321) == (10086585273483141421nat * 10086585273483141421nat) % 18446744069414584321nat);
    assert(pow_mod(7, 1048574, 18446744069414584321) == 5535602650859329748);
    assert(pow_mod(7, 1048575, 18446744069414584321) == (7nat * 5535602650859329748nat) % 18446744069414584321nat);
    assert(pow_mod(7, 1048575, 18446744069414584321) == 1855730417186139594);
    assert(pow_mod(7, 2097150, 18446744069414584321) == (1855730417186139594nat * 1855730417186139594nat) % 18446744069414584321nat);
    assert(pow_mod(7, 2097150, 18446744069414584321) == 3724741596018185032);
    assert(pow_mod(7, 2097151, 18446744069414584321) == (7nat * 3724741596018185032nat) % 18446744069414584321nat);
    assert(pow_mod(7, 2097151, 18446744069414584321) == 7626447102712710903);
    assert(pow_mod(7, 4194302, 18446744069414584321) == (7626447102712710903nat * 7626447102712710903nat) % 18446744069414584321nat);
    assert(pow_mod(7, 4194302, 18446744069414584321) == 11653985196031332500);
    assert(pow_mod(7, 4194303, 18446744069414584321) == (7nat * 11653985196031332500nat) % 18446744069414584321nat);
    assert(pow_mod(7, 4194303, 18446744069414584321) == 7790920094560990216);
    assert(pow_mod(7, 8388606, 18446744069414584321) == (7790920094560990216nat * 7790920094560990216nat) % 18446744069414584321nat);
    assert(pow_mod(7, 8388606, 18446744069414584321) == 16654626667483233145);
    assert(pow_mod(7, 8388607, 18446744069414584321) == (7nat * 16654626667483233145nat) % 18446744069414584321nat);
    assert(pow_mod(7, 8388607, 18446744069414584321) == 5901922255895126089);
    assert(pow_mod(7, 16777214, 18446744069414584321) == (5901922255895126089nat * 5901922255895126089nat) % 18446744069414584321nat);
    assert(pow_mod(7, 16777214, 18446744069414584321) == 9182212999444825067);
    assert(pow_mod(7, 16777215, 18446744069414584321) == (7nat * 9182212999444825067nat) % 18446744069414584321nat);
    assert(pow_mod(7, 16777215, 18446744069414584321) == 8935258787870022506);
    assert(pow_mod(7, 33554430, 18446744069414584321) == (8935258787870022506nat * 8935258787870022506nat) % 18446744069414584321nat);
    assert(pow_mod(7, 33554430, 18446744069414584321) == 17682034324931514088);
    assert(pow_mod(7, 33554431, 18446744069414584321) == (7nat * 17682034324931514088nat) % 18446744069414584321nat);
    assert(pow_mod(7, 33554431, 18446744069414584321) == 13093775858033092690);
    assert(pow_mod(7, 67108862, 18446744069414584321) == (13093775858033092690nat * 13093775858033092690nat) % 18446744069414584321nat);
    assert(pow_mod(7, 67108862, 18446744069414584321) == 9511995656157268947);
    assert(pow_mod(7, 67108863, 18446744069414584321) == (7nat * 9511995656157268947nat) % 18446744069414584321nat);
    assert(pow_mod(7, 67108863, 18446744069414584321) == 11243737384857129666);
    assert(pow_mod(7, 134217726, 18446744069414584321) == (11243737384857129666nat * 11243737384857129666nat) % 18446744069414584321nat);
    assert(pow_mod(7, 134217726, 18446744069414584321) == 16106297366990222687);
    assert(pow_mod(7, 134217727, 18446744069414584321) == (7nat * 16106297366990222687nat) % 18446744069414584321nat);
    assert(pow_mod(7, 134217727, 18446744069414584321) == 2063617152444052883);
    assert(pow_mod(7, 268435454, 18446744069414584321) == (2063617152444052883nat * 2063617152444052883nat) % 18446744069414584321nat);
    assert(pow_mod(7, 268435454, 18446744069414584321) == 4501656151559876649);
    assert(pow_mod(7, 268435455, 18446744069414584321) == (7nat * 4501656151559876649nat) % 18446744069414584321nat);
    assert(pow_mod(7, 268435455, 18446744069414584321) == 13064848991504552222);
    assert(pow_mod(7, 536870910, 18446744069414584321) == (13064848991504552222nat * 13064848991504552222nat) % 18446744069414584321nat);
    assert(pow_mod(7, 536870910, 18446744069414584321) == 2370486178716065012);
    assert(pow_mod(7, 536870911, 18446744069414584321) == (7nat * 2370486178716065012nat) % 18446744069414584321nat);
    assert(pow_mod(7, 536870911, 18446744069414584321) == 16593403251012455084);
    assert(pow_mod(7, 1073741822, 18446744069414584321) == (16593403251012455084nat * 16593403251012455084nat) % 18446744069414584321nat);
    assert(pow_mod(7, 1073741822, 18446744069414584321) == 14013264900002007546);
    assert(pow_mod(7, 1073741823, 18446744069414584321) == (7nat * 14013264900002007546nat) % 18446744069414584321nat);
    assert(pow_mod(7, 1073741823, 18446744069414584321) == 5859133952941131217);
    assert(pow_mod(7, 2147483646, 18446744069414584321) == (5859133952941131217nat * 5859133952941131217nat) % 18446744069414584321nat);
    assert(pow_mod(7, 2147483646, 18446744069414584321) == 10142762553374040318);
    assert(pow_mod(7, 2147483647, 18446744069414584321) == (7nat * 10142762553374040318nat) % 18446744069414584321nat);
    assert(pow_mod(7, 2147483647, 18446744069414584321) == 15659105665374529263);
    assert(pow_mod(7, 4294967294, 18446744069414584321) == (15659105665374529263nat * 15659105665374529263nat) % 18446744069414584321nat);
    assert(pow_mod(7, 4294967294, 18446744069414584321) == 16062014221418238814);
    assert(pow_mod(7, 4294967295, 18446744069414584321) == (7nat * 16062014221418238814nat) % 18446744069414584321nat);
    assert(pow_mod(7, 4294967295, 18446744069414584321) == 1753635133440165772);
    assert(pow_mod(7, 8589934590, 18446744069414584321) == (1753635133440165772nat * 1753635133440165772nat) % 18446744069414584321nat);
    assert(pow_mod(7, 8589934590, 18446744069414584321) == 4614640910117430873);
    assert(pow_mod(7, 17179869180, 18446744069414584321) == (4614640910117430873nat * 4614640910117430873nat) % 18446744069414584321nat);
    assert(pow_mod(7, 17179869180, 18446744069414584321) == 9123114210336311365);
    assert(pow_mod(7, 34359738360, 18446744069414584321) == (9123114210336311365nat * 9123114210336311365nat) % 18446744069414584321nat);
    assert(pow_mod(7, 34359738360, 18446744069414584321) == 16116352524544190054);
    assert(pow_mod(7, 68719476720, 18446744069414584321) == (16116352524544190054nat * 16116352524544190054nat) % 18446744069414584321nat);
    assert(pow_mod(7, 68719476720, 18446744069414584321) == 6414415596519834757);
    assert(pow_mod(7, 137438953440, 18446744069414584321) == (6414415596519834757nat * 6414415596519834757nat) % 18446744069414584321nat);
    assert(pow_mod(7, 137438953440, 18446744069414584321) == 1213594585890690845);
    assert(pow_mod(7, 274877906880, 18446744069414584321) == (1213594585890690845nat * 1213594585890690845nat) % 18446744069414584321nat);
    assert(pow_mod(7, 274877906880, 18446744069414584321) == 17096174751763063430);
    assert(pow_mod(7, 549755813760, 18446744069414584321) == (17096174751763063430nat * 17096174751763063430nat) % 18446744069414584321nat);
    assert(pow_mod(7, 549755813760, 18446744069414584321) == 5456943929260765144);
    assert(pow_mod(7, 1099511627520, 18446744069414584321) == (5456943929260765144nat * 5456943929260765144nat) % 18446744069414584321nat);
    assert(pow_mod(7, 1099511627520, 18446744069414584321) == 9713644485405565297);
    assert(pow_mod(7, 2199023255040, 18446744069414584321) == (9713644485405565297nat * 9713644485405565297nat) % 18446744069414584321nat);
    assert(pow_mod(7, 2199023255040, 18446744069414584321) == 16905767614792059275);
    assert(pow_mod(7, 4398046510080, 18446744069414584321) == (16905767614792059275nat * 16905767614792059275nat) % 18446744069414584321nat);
    assert(pow_mod(7, 4398046510080, 18446744069414584321) == 5416168637041100469);
    assert(pow_mod(7, 8796093020160, 18446744069414584321) == (5416168637041100469nat * 5416168637041100469nat) % 18446744069414584321nat);
    assert(pow_mod(7, 8796093020160, 18446744069414584321) == 17654865857378133588);
    assert(pow_mod(7, 17592186040320, 18446744069414584321) == (17654865857378133588nat * 17654865857378133588nat) % 18446744069414584321nat);
    assert(pow_mod(7, 17592186040320, 18446744069414584321) == 3511170319078647661);
    assert(pow_mod(7, 35184372080640, 18446744069414584321) == (3511170319078647661nat * 3511170319078647661nat) % 18446744069414584321nat);
    assert(pow_mod(7, 35184372080640, 18446744069414584321) == 18146160046829613826);
    assert(pow_mod(7, 70368744161280, 18446744069414584321) == (18146160046829613826nat * 18146160046829613826nat) % 18446744069414584321nat);
    assert(pow_mod(7, 70368744161280, 18446744069414584321) == 9306717745644682924);
    assert(pow_mod(7, 140737488322560, 18446744069414584321) == (9306717745644682924nat * 9306717745644682924nat) % 18446744069414584321nat);
    assert(pow_mod(7, 140737488322560, 18446744069414584321) == 12380578893860276750);
    assert(pow_mod(7, 281474976645120, 18446744069414584321) == (12380578893860276750nat * 12380578893860276750nat) % 18446744069414584321nat);
    assert(pow_mod(7, 281474976645120, 18446744069414584321) == 6115771955107415310);
    assert(pow_mod(7, 562949953290240, 18446744069414584321) == (6115771955107415310nat * 6115771955107415310nat) % 18446744069414584321nat);
    assert(pow_mod(7, 562949953290240, 18446744069414584321) == 17776499369601055404);
    assert(pow_mod(7, 1125899906580480, 18446744069414584321) == (17776499369601055404nat * 17776499369601055404nat) % 18446744069414584321nat);
    assert(pow_mod(7, 1125899906580480, 18446744069414584321) == 16207902636198568418);
    assert(pow_mod(7, 2251799813160960, 18446744069414584321) == (16207902636198568418nat * 16207902636198568418nat) % 18446744069414584321nat);
    assert(pow_mod(7, 2251799813160960, 18446744069414584321) == 1532612707718625687);
    assert(pow_mod(7, 4503599626321920, 18446744069414584321) == (1532612707718625687nat * 1532612707718625687nat) % 18446744069414584321nat);
    assert(pow_mod(7, 4503599626321920, 18446744069414584321) == 17492915097719143606);
    assert(pow_mod(7, 9007199252643840, 18446744069414584321) == (17492915097719143606nat * 17492915097719143606nat) % 18446744069414584321nat);
    assert(pow_mod(7, 9007199252643840, 18446744069414584321) == 455906449640507599);
    assert(pow_mod(7, 18014398505287680, 18446744069414584321) == (455906449640507599nat * 455906449640507599nat) % 18446744069414584321nat);
    assert(pow_mod(7, 18014398505287680, 18446744069414584321) == 11353340290879379826);
    assert(pow_mod(7, 36028797010575360, 18446744069414584321) == (11353340290879379826nat * 11353340290879379826nat) % 18446744069414584321nat);
    assert(pow_mod(7, 36028797010575360, 18446744069414584321) == 1803076106186727246);
    assert(pow_mod(7, 72057594021150720, 18446744069414584321) == (1803076106186727246nat * 1803076106186727246nat) % 18446744069414584321nat);
    assert(pow_mod(7, 72057594021150720, 18446744069414584321) == 13797081185216407910);
    assert(pow_mod(7, 144115188042301440, 18446744069414584321) == (13797081185216407910nat * 13797081185216407910nat) % 18446744069414584321nat);
    assert(pow_mod(7, 144115188042301440, 18446744069414584321) == 17870292113338400769);
    assert(pow_mod(7, 288230376084602880, 18446744069414584321) == (17870292113338400769nat * 17870292113338400769nat) % 18446744069414584321nat);
    assert(pow_mod(7, 288230376084602880, 18446744069414584321) == 549755813888);
    assert(pow_mod(7, 576460752169205760, 18446744069414584321) == (549755813888nat * 549755813888nat) % 18446744069414584321nat);
    assert(pow_mod(7, 576460752169205760, 18446744069414584321) == 70368744161280);
    assert(pow_mod(7, 1152921504338411520, 18446744069414584321) == (70368744161280nat * 70368744161280nat) % 18446744069414584321nat);
    assert(pow_mod(7, 1152921504338411520, 18446744069414584321) == 17293822564807737345);
    assert(pow_mod(7, 2305843008676823040, 18446744069414584321) == (17293822564807737345nat * 17293822564807737345nat) % 18446744069414584321nat);
    assert(pow_mod(7, 2305843008676823040, 18446744069414584321) == 18446744069397807105);
    assert(pow_mod(7, 4611686017353646080, 18446744069414584321) == (18446744069397807105nat * 18446744069397807105nat) % 18446744069414584321nat);
    assert(pow_mod(7, 4611686017353646080, 18446744069414584321) == 281474976710656);
    assert(pow_mod(7, 9223372034707292160, 18446744069414584321) == (281474976710656nat * 281474976710656nat) % 18446744069414584321nat);
    assert(pow_mod(7, 9223372034707292160, 18446744069414584321) == 18446744069414584320);
}

/// 3 is a quadratic residue modulo q: 3^((q-1)/2) = 1.
pub proof fn lemma_pow_three_half()
    ensures
        pow_mod(3, 9223372034707292160, 18446744069414584321) == 1,
{
    assert(pow_mod(3, 0, 18446744069414584321) == 1);
    assert(pow_mod(3, 1, 18446744069414584321) == (3nat * 1nat) % 18446744069414584321nat);
    assert(pow_mod(3, 1, 18446744069414584321) == 3);
    assert(pow_mod(3, 2, 18446744069414584321) == (3nat * 3nat) % 18446744069414584321nat);
    assert(pow_mod(3, 2, 18446744069414584321) == 9);
    assert(pow_mod(3, 3, 18446744069414584321) == (3nat * 9nat) % 18446744069414584321nat);
    assert(pow_mod(3, 3, 18446744069414584321) == 27);
    assert(pow_mod(3, 6, 18446744069414584321) == (27nat * 27nat) % 18446744069414584321nat);
    assert(pow_mod(3, 6, 18446744069414584321) == 729);
    assert(pow_mod(3, 7, 18446744069414584321) == (3nat * 729nat) % 18446744069414584321nat);
    assert(pow_mod(3, 7, 18446744069414584321) == 2187);
    assert(pow_mod(3, 14, 18446744069414584321) == (2187nat * 2187nat) % 18446744069414584321nat);
    assert(pow_mod(3, 14, 18446744069414584321) == 4782969);
    assert(pow_mod(3, 15, 18446744069414584321) == (3nat * 4782969nat) % 18446744069414584321nat);
    assert(pow_mod(3, 15, 18446744069414584321) == 14348907);
    assert(pow_mod(3, 30, 18446744069414584321) == (14348907nat * 14348907nat) % 18446744069414584321nat);
    assert(pow_mod(3, 30, 18446744069414584321) == 205891132094649);
    assert(pow_mod(3, 31, 18446744069414584321) == (3nat * 205891132094649nat) % 18446744069414584321nat);
    assert(pow_mod(3, 31, 18446744069414584321) == 617673396283947);
    assert(pow_mod(3, 62, 18446744069414584321) == (617673396283947nat * 617673396283947nat) % 18446744069414584321nat);
    assert(pow_mod(3, 62, 18446744069414584321) == 1665544991254992591);
    assert(pow_mod(3, 63, 18446744069414584321) == (3nat * 1665544991254992591nat) % 18446744069414584321nat);
    assert(pow_mod(3, 63, 18446744069414584321) == 4996634973764977773);
    assert(pow_mod(3, 126, 18446744069414584321) == (4996634973764977773nat * 4996634973764977773nat) % 18446744069414584321nat);
    assert(pow_mod(3, 126, 18446744069414584321) == 14031534440430353503);
    assert(pow_mod(3, 127, 18446744069414584321) == (3nat * 14031534440430353503nat) % 18446744069414584321nat);
    assert(pow_mod(3, 127, 18446744069414584321) == 5201115182461891867);
    assert(pow_mod(3, 254, 18446744069414584321) == (5201115182461891867nat * 5201115182461891867nat) % 18446744069414584321nat);
    assert(pow_mod(3, 254, 18446744069414584321) == 9481543313971479994);
    assert(pow_mod(3, 255, 18446744069414584321) == (3nat * 9481543313971479994nat) % 18446744069414584321nat);
    assert(pow_mod(3, 255, 18446744069414584321) == 9997885872499855661);
    assert(pow_mod(3, 510, 18446744069414584321) == (9997885872499855661nat * 9997885872499855661nat) % 18446744069414584321nat);
    assert(pow_mod(3, 510, 18446744069414584321) == 1957534290109530369);
    assert(pow_mod(3, 511, 18446744069414584321) == (3nat * 1957534290109530369nat) % 18446744069414584321nat);
    assert(pow_mod(3, 511, 18446744069414584321) == 5872602870328591107);
    assert(pow_mod(3, 1022, 18446744069414584321) == (5872602870328591107nat * 5872602870328591107nat) % 18446744069414584321nat);
    assert(pow_mod(3, 1022, 18446744069414584321) == 13259450523053022);
    assert(pow_mod(3, 1023, 18446744069414584321) == (3nat * 13259450523053022nat) % 18446744069414584321nat);
    assert(pow_mod(3, 1023, 18446744069414584321) == 39778351569159066);
    assert(pow_mod(3, 2046, 18446744069414584321) == (39778351569159066nat * 39778351569159066nat) % 18446744069414584321nat);
    assert(pow_mod(3, 2046, 18446744069414584321) == 8575342986023705893);
    assert(pow_mod(3, 2047, 18446744069414584321) == (3nat * 8575342986023705893nat) % 18446744069414584321nat);
    assert(pow_mod(3, 2047, 18446744069414584321) == 7279284888656533358);
    assert(pow_mod(3, 4094, 18446744069414584321) == (7279284888656533358nat * 7279284888656533358nat) % 18446744069414584321nat);
    assert(pow_mod(3, 4094, 18446744069414584321) == 2976469688647227572);
    assert(pow_mod(3, 4095, 18446744069414584321) == (3nat * 2976469688647227572nat) % 18446744069414584321nat);
    assert(pow_mod(3, 4095, 18446744069414584321) == 8929409065941682716);
    assert(pow_mod(3, 8190, 18446744069414584321) == (8929409065941682716nat * 8929409065941682716nat) % 18446744069414584321nat);
    assert(pow_mod(3, 8190, 18446744069414584321) == 7009461254326882733);
    assert(pow_mod(3, 8191, 18446744069414584321) == (3nat * 7009461254326882733nat) % 18446744069414584321nat);
    assert(pow_mod(3, 8191, 18446744069414584321) == 2581639693566063878);
    assert(pow_mod(3, 16382, 18446744069414584321) == (2581639693566063878nat * 2581639693566063878nat) % 18446744069414584321nat);
    assert(pow_mod(3, 16382, 18446744069414584321) == 6059726752424646032);
    assert(pow_mod(3, 16383, 18446744069414584321) == (3nat * 6059726752424646032nat) % 18446744069414584321nat);
    assert(pow_mod(3, 16383, 18446744069414584321) == 18179180257273938096);
    assert(pow_mod(3, 32766, 18446744069414584321) == (18179180257273938096nat * 18179180257273938096nat) % 18446744069414584321nat);
    assert(pow_mod(3, 32766, 18446744069414584321) == 10024161433837097563);
    assert(pow_mod(3, 32767, 18446744069414584321) == (3nat * 10024161433837097563nat) % 18446744069414584321nat);
    assert(pow_mod(3, 32767, 18446744069414584321) == 11625740232096708368);
    assert(pow_mod(3, 65534, 18446744069414584321) == (11625740232096708368nat * 11625740232096708368nat) % 18446744069414584321nat);
    assert(pow_mod(3, 65534, 18446744069414584321) == 14109894371342486369);
    assert(pow_mod(3, 65535, 18446744069414584321) == (3nat * 14109894371342486369nat) % 18446744069414584321nat);
    assert(pow_mod(3, 65535, 18446744069414584321) == 5436194975198290465);
    assert(pow_mod(3, 131070, 18446744069414584321) == (5436194975198290465nat * 5436194975198290465nat) % 18446744069414584321nat);
    assert(pow_mod(3, 131070, 18446744069414584321) == 9942735050157032961);
    assert(pow_mod(3, 131071, 18446744069414584321) == (3nat * 9942735050157032961nat) % 18446744069414584321nat);
    assert(pow_mod(3, 131071, 18446744069414584321) == 11381461081056514562);
    assert(pow_mod(3, 262142, 18446744069414584321) == (11381461081056514562nat * 11381461081056514562nat) % 18446744069414584321nat);
    assert(pow_mod(3, 262142, 18446744069414584321) == 5724787113271814208);
    assert(pow_mod(3, 262143, 18446744069414584321) == (3nat * 5724787113271814208nat) % 18446744069414584321nat);
    assert(pow_mod(3, 262143, 18446744069414584321) == 17174361339815442624);
    assert(pow_mod(3, 524286, 18446744069414584321) == (17174361339815442624nat * 17174361339815442624nat) % 18446744069414584321nat);
    assert(pow_mod(3, 524286, 18446744069414584321) == 8787522820493047069);
    assert(pow_mod(3, 524287, 18446744069414584321) == (3nat * 8787522820493047069nat) % 18446744069414584321nat);
    assert(pow_mod(3, 524287, 18446744069414584321) == 7915824392064556886);
    assert(pow_mod(3, 1048574, 18446744069414584321) == (7915824392064556886nat * 7915824392064556886nat) % 18446744069414584321nat);
    assert(pow_mod(3, 1048574, 18446744069414584321) == 13253315062604024196);
    assert(pow_mod(3, 1048575, 18446744069414584321) == (3nat * 13253315062604024196nat) % 18446744069414584321nat);
    assert(pow_mod(3, 1048575, 18446744069414584321) == 2866457048982903946);
    assert(pow_mod(3, 2097150, 18446744069414584321) == (2866457048982903946nat * 2866457048982903946nat) % 18446744069414584321nat);
    assert(pow_mod(3, 2097150, 18446744069414584321) == 9145376881508752083);
    assert(pow_mod(3, 2097151, 18446744069414584321) == (3nat * 9145376881508752083nat) % 18446744069414584321nat);
    assert(pow_mod(3, 2097151, 18446744069414584321) == 8989386575111671928);
    assert(pow_mod(3, 4194302, 18446744069414584321) == (8989386575111671928nat * 8989386575111671928nat) % 18446744069414584321nat);
    assert(pow_mod(3, 4194302, 18446744069414584321) == 14911424892743419414);
    assert(pow_mod(3, 4194303, 18446744069414584321) == (3nat * 14911424892743419414nat) % 18446744069414584321nat);
    assert(pow_mod(3, 4194303, 18446744069414584321) == 7840786539401089600);
    assert(pow_mod(3, 8388606, 18446744069414584321) == (7840786539401089600nat * 7840786539401089600nat) % 18446744069414584321nat);
    assert(pow_mod(3, 8388606, 18446744069414584321) == 18016983634494583957);
    assert(pow_mod(3, 8388607, 18446744069414584321) == (3nat * 18016983634494583957nat) % 18446744069414584321nat);
    assert(pow_mod(3, 8388607, 18446744069414584321) == 17157462764654583229);
    assert(pow_mod(3, 16777214, 18446744069414584321) == (17157462764654583229nat * 17157462764654583229nat) % 18446744069414584321nat);
    assert(pow_mod(3, 16777214, 18446744069414584321) == 16252057838326282907);
    assert(pow_mod(3, 16777215, 18446744069414584321) == (3nat * 16252057838326282907nat) % 18446744069414584321nat);
    assert(pow_mod(3, 16777215, 18446744069414584321) == 11862685376149680079);
    assert(pow_mod(3, 33554430, 18446744069414584321) == (11862685376149680079nat * 11862685376149680079nat) % 18446744069414584321nat);
    assert(pow_mod(3, 33554430, 18446744069414584321) == 1478040345478258564);
    assert(pow_mod(3, 33554431, 18446744069414584321) == (3nat * 1478040345478258564nat) % 18446744069414584321nat);
    assert(pow_mod(3, 33554431, 18446744069414584321) == 4434121036434775692);
    assert(pow_mod(3, 67108862, 18446744069414584321) == (4434121036434775692nat * 4434121036434775692nat) % 18446744069414584321nat);
    assert(pow_mod(3, 67108862, 18446744069414584321) == 10721426208397621097);
    assert(pow_mod(3, 67108863, 18446744069414584321) == (3nat * 10721426208397621097nat) % 18446744069414584321nat);
    assert(pow_mod(3, 67108863, 18446744069414584321) == 13717534555778278970);
    assert(pow_mod(3, 134217726, 18446744069414584321) == (13717534555778278970nat * 13717534555778278970nat) % 18446744069414584321nat);
    assert(pow_mod(3, 134217726, 18446744069414584321) == 4740822858480579797);
    assert(pow_mod(3, 134217727, 18446744069414584321) == (3nat * 4740822858480579797nat) % 18446744069414584321nat);
    assert(pow_mod(3, 134217727, 18446744069414584321) == 14222468575441739391);
    assert(pow_mod(3, 268435454, 18446744069414584321) == (14222468575441739391nat * 14222468575441739391nat) % 18446744069414584321nat);
    assert(pow_mod(3, 268435454, 18446744069414584321) == 17932470550744304862);
    assert(pow_mod(3, 268435455, 18446744069414584321) == (3nat * 17932470550744304862nat) % 18446744069414584321nat);
    assert(pow_mod(3, 268435455, 18446744069414584321) == 16903923513403745944);
    assert(pow_mod(3, 536870910, 18446744069414584321) == (16903923513403745944nat * 16903923513403745944nat) % 18446744069414584321nat);
    assert(pow_mod(3, 536870910, 18446744069414584321) == 15152557297036257706);
    assert(pow_mod(3, 536870911, 18446744069414584321) == (3nat * 15152557297036257706nat) % 18446744069414584321nat);
    assert(pow_mod(3, 536870911, 18446744069414584321) == 8564183752279604476);
    assert(pow_mod(3, 1073741822, 18446744069414584321) == (8564183752279604476nat * 8564183752279604476nat) % 18446744069414584321nat);
    assert(pow_mod(3, 1073741822, 18446744069414584321) == 15302634708760585262);
    assert(pow_mod(3, 1073741823, 18446744069414584321) == (3nat * 15302634708760585262nat) % 18446744069414584321nat);
    assert(pow_mod(3, 1073741823, 18446744069414584321) == 9014415987452587144);
    assert(pow_mod(3, 2147483646, 18446744069414584321) == (9014415987452587144nat * 9014415987452587144nat) % 18446744069414584321nat);
    assert(pow_mod(3, 2147483646, 18446744069414584321) == 7597846875674771796);
    assert(pow_mod(3, 2147483647, 18446744069414584321) == (3nat * 7597846875674771796nat) % 18446744069414584321nat);
    assert(pow_mod(3, 2147483647, 18446744069414584321) == 4346796557609731067);
    assert(pow_mod(3, 4294967294, 18446744069414584321) == (4346796557609731067nat * 4346796557609731067nat) % 18446744069414584321nat);
    assert(pow_mod(3, 4294967294, 18446744069414584321) == 16579674860346632845);
    assert(pow_mod(3, 4294967295, 18446744069414584321) == (3nat * 16579674860346632845nat) % 18446744069414584321nat);
    assert(pow_mod(3, 4294967295, 18446744069414584321) == 12845536442210729893);
    assert(pow_mod(3, 8589934590, 18446744069414584321) == (12845536442210729893nat * 12845536442210729893nat) % 18446744069414584321nat);
    assert(pow_mod(3, 8589934590, 18446744069414584321) == 17818703099670063525);
    assert(pow_mod(3, 17179869180, 18446744069414584321) == (17818703099670063525nat * 17818703099670063525nat) % 18446744069414584321nat);
    assert(pow_mod(3, 17179869180, 18446744069414584321) == 5115650025456611651);
    assert(pow_mod(3, 34359738360, 18446744069414584321) == (5115650025456611651nat * 5115650025456611651nat) % 18446744069414584321nat);
    assert(pow_mod(3, 34359738360, 18446744069414584321) == 10453932780379453782);
    assert(pow_mod(3, 68719476720, 18446744069414584321) == (10453932780379453782nat * 10453932780379453782nat) % 18446744069414584321nat);
    assert(pow_mod(3, 68719476720, 18446744069414584321) == 9511726604490599885);
    assert(pow_mod(3, 137438953440, 18446744069414584321) == (9511726604490599885nat * 9511726604490599885nat) % 18446744069414584321nat);
    assert(pow_mod(3, 137438953440, 18446744069414584321) == 10386016357418921484);
    assert(pow_mod(3, 274877906880, 18446744069414584321) == (10386016357418921484nat * 10386016357418921484nat) % 18446744069414584321nat);
    assert(pow_mod(3, 274877906880, 18446744069414584321) == 12825987740469377516);
    assert(pow_mod(3, 549755813760, 18446744069414584321) == (12825987740469377516nat * 12825987740469377516nat) % 18446744069414584321nat);
    assert(pow_mod(3, 549755813760, 18446744069414584321) == 8107878856729910514);
    assert(pow_mod(3, 1099511627520, 18446744069414584321) == (8107878856729910514nat * 8107878856729910514nat) % 18446744069414584321nat);
    assert(pow_mod(3, 1099511627520, 18446744069414584321) == 10724164058895416804);
    assert(pow_mod(3, 2199023255040, 18446744069414584321) == (10724164058895416804nat * 10724164058895416804nat) % 18446744069414584321nat);
    assert(pow_mod(3, 2199023255040, 18446744069414584321) == 11587594421694743929);
    assert(pow_mod(3, 4398046510080, 18446744069414584321) == (11587594421694743929nat * 11587594421694743929nat) % 18446744069414584321nat);
    assert(pow_mod(3, 4398046510080, 18446744069414584321) == 1634727153484504029);
    assert(pow_mod(3, 8796093020160, 18446744069414584321) == (1634727153484504029nat * 1634727153484504029nat) % 18446744069414584321nat);
    assert(pow_mod(3, 8796093020160, 18446744069414584321) == 14862771283171695220);
    assert(pow_mod(3, 17592186040320, 18446744069414584321) == (14862771283171695220nat * 14862771283171695220nat) % 18446744069414584321nat);
    assert(pow_mod(3, 17592186040320, 18446744069414584321) == 8208443742397721971);
    assert(pow_mod(3, 35184372080640, 18446744069414584321) == (8208443742397721971nat * 8208443742397721971nat) % 18446744069414584321nat);
    assert(pow_mod(3, 35184372080640, 18446744069414584321) == 9574120903694676522);
    assert(pow_mod(3, 70368744161280, 18446744069414584321) == (9574120903694676522nat * 9574120903694676522nat) % 18446744069414584321nat);
    assert(pow_mod(3, 70368744161280, 18446744069414584321) == 7263682523083494386);
    assert(pow_mod(3, 140737488322560, 18446744069414584321) == (7263682523083494386nat * 7263682523083494386nat) % 18446744069414584321nat);
    assert(pow_mod(3, 140737488322560, 18446744069414584321) == 9305073981236941918);
    assert(pow_mod(3, 281474976645120, 18446744069414584321) == (9305073981236941918nat * 9305073981236941918nat) % 18446744069414584321nat);
    assert(pow_mod(3, 281474976645120, 18446744069414584321) == 7485633586531034559);
    assert(pow_mod(3, 562949953290240, 18446744069414584321) == (7485633586531034559nat * 7485633586531034559nat) % 18446744069414584321nat);
    assert(pow_mod(3, 562949953290240, 18446744069414584321) == 17345015821883581672);
    assert(pow_mod(3, 1125899906580480, 18446744069414584321) == (17345015821883581672nat * 17345015821883581672nat) % 18446744069414584321nat);
    assert(pow_mod(3, 1125899906580480, 18446744069414584321) == 10674664745462474654);
    assert(pow_mod(3, 2251799813160960, 18446744069414584321) == (10674664745462474654nat * 10674664745462474654nat) % 18446744069414584321nat);
    assert(pow_mod(3, 2251799813160960, 18446744069414584321) == 14763866748926558449);
    assert(pow_mod(3, 4503599626321920, 18446744069414584321) == (14763866748926558449nat * 14763866748926558449nat) % 18446744069414584321nat);
    assert(pow_mod(3, 4503599626321920, 18446744069414584321) == 15188579624681553725);
    assert(pow_mod(3, 9007199252643840, 18446744069414584321) == (15188579624681553725nat * 15188579624681553725nat) % 18446744069414584321nat);
    assert(pow_mod(3, 9007199252643840, 18446744069414584321) == 7500740417092890225);
    assert(pow_mod(3, 18014398505287680, 18446744069414584321) == (7500740417092890225nat * 7500740417092890225nat) % 18446744069414584321nat);
    assert(pow_mod(3, 18014398505287680, 18446744069414584321) == 4545880015766881148);
    assert(pow_mod(3, 36028797010575360, 18446744069414584321) == (4545880015766881148nat * 4545880015766881148nat) % 18446744069414584321nat);
    assert(pow_mod(3, 36028797010575360, 18446744069414584321) == 8288405288461869359);
    assert(pow_mod(3, 72057594021150720, 18446744069414584321) == (8288405288461869359nat * 8288405288461869359nat) % 18446744069414584321nat);
    assert(pow_mod(3, 72057594021150720, 18446744069414584321) == 18446741870357774849);
    assert(pow_mod(3, 144115188042301440, 18446744069414584321) == (18446741870357774849nat * 18446741870357774849nat) % 18446744069414584321nat);
    assert(pow_mod(3, 144115188042301440, 18446744069414584321) == 18446744069414584313);
    assert(pow_mod(3, 288230376084602880, 18446744069414584321) == (18446744069414584313nat * 18446744069414584313nat) % 18446744069414584321nat);
    assert(pow_mod(3, 288230376084602880, 18446744069414584321) == 64);
    assert(pow_mod(3, 576460752169205760, 18446744069414584321) == (64nat * 64nat) % 18446744069414584321nat);
    assert(pow_mod(3, 576460752169205760, 18446744069414584321) == 4096);
    assert(pow_mod(3, 1152921504338411520, 18446744069414584321) == (4096nat * 4096nat) % 18446744069414584321nat);
    assert(pow_mod(3, 1152921504338411520, 18446744069414584321) == 16777216);
    assert(pow_mod(3, 2305843008676823040, 18446744069414584321) == (16777216nat * 16777216nat) % 18446744069414584321nat);
    assert(pow_mod(3, 2305843008676823040, 18446744069414584321) == 281474976710656);
    assert(pow_mod(3, 4611686017353646080, 18446744069414584321) == (281474976710656nat * 281474976710656nat) % 18446744069414584321nat);
    assert(pow_mod(3, 4611686017353646080, 18446744069414584321) == 18446744069414584320);
    assert(pow_mod(3, 9223372034707292160, 18446744069414584321) == (18446744069414584320nat * 18446744069414584320nat) % 18446744069414584321nat);
    assert(pow_mod(3, 9223372034707292160, 18446744069414584321) == 1);
}

/// 5 is a quadratic residue modulo q: 5^((q-1)/2) = 1.
pub proof fn lemma_pow_five_half()
    ensures
        pow_mod(5, 9223372034707292160, 18446744069414584321) == 1,
{
    assert(pow_mod(5, 0, 18446744069414584321) == 1);
    assert(pow_mod(5, 1, 18446744069414584321) == (5nat * 1nat) % 18446744069414584321nat);
    assert(pow_mod(5, 1, 18446744069414584321) == 5);
    assert(pow_mod(5, 2, 18446744069414584321) == (5nat * 5nat) % 18446744069414584321nat);
    assert(pow_mod(5, 2, 18446744069414584321) == 25);
    assert(pow_mod(5, 3, 18446744069414584321) == (5nat * 25nat) % 18446744069414584321nat);
    assert(pow_mod(5, 3, 18446744069414584321) == 125);
    assert(pow_mod(5, 6, 18446744069414584321) == (125nat * 125nat) % 18446744069414584321nat);
    assert(pow_mod(5, 6, 18446744069414584321) == 15625);
    assert(pow_mod(5, 7, 18446744069414584321) == (5nat * 15625nat) % 18446744069414584321nat);
    assert(pow_mod(5, 7, 18446744069414584321) == 78125);
    assert(pow_mod(5, 14, 18446744069414584321) == (78125nat * 78125nat) % 18446744069414584321nat);
    assert(pow_mod(5, 14, 18446744069414584321) == 6103515625);
    assert(pow_mod(5, 15, 18446744069414584321) == (5nat * 6103515625nat) % 18446744069414584321nat);
    assert(pow_mod(5, 15, 18446744069414584321) == 30517578125);
    assert(pow_mod(5, 30, 18446744069414584321) == (30517578125nat * 30517578125nat) % 18446744069414584321nat);
    assert(pow_mod(5, 30, 18446744069414584321) == 8985371144749299575);
    assert(pow_mod(5, 31, 18446744069414584321) == (5nat * 8985371144749299575nat) % 18446744069414584321nat);
    assert(pow_mod(5, 31, 18446744069414584321) == 8033367584917329233);
    assert(pow_mod(5, 62, 18446744069414584321) == (8033367584917329233nat * 8033367584917329233nat) % 18446744069414584321nat);
    assert(pow_mod(5, 62, 18446744069414584321) == 6850607923974568808);
    assert(pow_mod(5, 63, 18446744069414584321) == (5nat * 6850607923974568808nat) % 18446744069414584321nat);
    assert(pow_mod(5, 63, 18446744069414584321) == 15806295550458259719);
    assert(pow_mod(5, 126, 18446744069414584321) == (15806295550458259719nat * 15806295550458259719nat) % 18446744069414584321nat);
    assert(pow_mod(5, 126, 18446744069414584321) == 17001118372149021957);
    assert(pow_mod(5, 127, 18446744069414584321) == (5nat * 17001118372149021957nat) % 18446744069414584321nat);
    assert(pow_mod(5, 127, 18446744069414584321) == 11218615583086772501);
    assert(pow_mod(5, 254, 18446744069414584321) == (11218615583086772501nat * 11218615583086772501nat) % 18446744069414584321nat);
    assert(pow_mod(5, 254, 18446744069414584321) == 14734757044567918361);
    assert(pow_mod(5, 255, 18446744069414584321) == (5nat * 14734757044567918361nat) % 18446744069414584321nat);
    assert(pow_mod(5, 255, 18446744069414584321) == 18333553014595838842);
    assert(pow_mod(5, 510, 18446744069414584321) == (18333553014595838842nat * 18333553014595838842nat) % 18446744069414584321nat);
    assert(pow_mod(5, 510, 18446744069414584321) == 8084083501075769573);
    assert(pow_mod(5, 511, 18446744069414584321) == (5nat * 8084083501075769573nat) % 18446744069414584321nat);
    assert(pow_mod(5, 511, 18446744069414584321) == 3526929366549679223);
    assert(pow_mod(5, 1022, 18446744069414584321) == (3526929366549679223nat * 3526929366549679223nat) % 18446744069414584321nat);
    assert(pow_mod(5, 1022, 18446744069414584321) == 12781825177735467297);
    assert(pow_mod(5, 1023, 18446744069414584321) == (5nat * 12781825177735467297nat) % 18446744069414584321nat);
    assert(pow_mod(5, 1023, 18446744069414584321) == 8568893680433583522);
    assert(pow_mod(5, 2046, 18446744069414584321) == (8568893680433583522nat * 8568893680433583522nat) % 18446744069414584321nat);
    assert(pow_mod(5, 2046, 18446744069414584321) == 3095183530801895087);
    assert(pow_mod(5, 2047, 18446744069414584321) == (5nat * 3095183530801895087nat) % 18446744069414584321nat);
    assert(pow_mod(5, 2047, 18446744069414584321) == 15475917654009475435);
    assert(pow_mod(5, 4094, 18446744069414584321) == (15475917654009475435nat * 15475917654009475435nat) % 18446744069414584321nat);
    assert(pow_mod(5, 4094, 18446744069414584321) == 11678100193309007424);
    assert(pow_mod(5, 4095, 18446744069414584321) == (5nat * 11678100193309007424nat) % 18446744069414584321nat);
    assert(pow_mod(5, 4095, 18446744069414584321) == 3050268758301284157);
    assert(pow_mod(5, 8190, 18446744069414584321) == (3050268758301284157nat * 3050268758301284157nat) % 18446744069414584321nat);
    assert(pow_mod(5, 8190, 18446744069414584321) == 1237642356633116636);
    assert(pow_mod(5, 8191, 18446744069414584321) == (5nat * 1237642356633116636nat) % 18446744069414584321nat);
    assert(pow_mod(5, 8191, 18446744069414584321) == 6188211783165583180);
    assert(pow_mod(5, 16382, 18446744069414584321) == (6188211783165583180nat * 6188211783165583180nat) % 18446744069414584321nat);
    assert(pow_mod(5, 16382, 18446744069414584321) == 4031702977692044869);
    assert(pow_mod(5, 16383, 18446744069414584321) == (5nat * 4031702977692044869nat) % 18446744069414584321nat);
    assert(pow_mod(5, 16383, 18446744069414584321) == 1711770819045640024);
    assert(pow_mod(5, 32766, 18446744069414584321) == (1711770819045640024nat * 1711770819045640024nat) % 18446744069414584321nat);
    assert(pow_mod(5, 32766, 18446744069414584321) == 9636183532416582200);
    assert(pow_mod(5, 32767, 18446744069414584321) == (5nat * 9636183532416582200nat) % 18446744069414584321nat);
    assert(pow_mod(5, 32767, 18446744069414584321) == 11287429523253742358);
    assert(pow_mod(5, 65534, 18446744069414584321) == (11287429523253742358nat * 11287429523253742358nat) % 18446744069414584321nat);
    assert(pow_mod(5, 65534, 18446744069414584321) == 14204459899417672315);
    assert(pow_mod(5, 65535, 18446744069414584321) == (5nat * 14204459899417672315nat) % 18446744069414584321nat);
    assert(pow_mod(5, 65535, 18446744069414584321) == 15682067288844608612);
    assert(pow_mod(5, 131070, 18446744069414584321) == (15682067288844608612nat * 15682067288844608612nat) % 18446744069414584321nat);
    assert(pow_mod(5, 131070, 18446744069414584321) == 14797143199064719615);
    assert(pow_mod(5, 131071, 18446744069414584321) == (5nat * 14797143199064719615nat) % 18446744069414584321nat);
    assert(pow_mod(5, 131071, 18446744069414584321) == 198739717665260791);
    assert(pow_mod(5, 262142, 18446744069414584321) == (198739717665260791nat * 198739717665260791nat) % 18446744069414584321nat);
    assert(pow_mod(5, 262142, 18446744069414584321) == 5481531119925319798);
    assert(pow_mod(5, 262143, 18446744069414584321) == (5nat * 5481531119925319798nat) % 18446744069414584321nat);
    assert(pow_mod(5, 262143, 18446744069414584321) == 8960911530212014669);
    assert(pow_mod(5, 524286, 18446744069414584321) == (8960911530212014669nat * 8960911530212014669nat) % 18446744069414584321nat);
    assert(pow_mod(5, 524286, 18446744069414584321) == 18110718161599478438);
    assert(pow_mod(5, 524287, 18446744069414584321) == (5nat * 18110718161599478438nat) % 18446744069414584321nat);
    assert(pow_mod(5, 524287, 18446744069414584321) == 16766614530339054906);
    assert(pow_mod(5, 1048574, 18446744069414584321) == (16766614530339054906nat * 16766614530339054906nat) % 18446744069414584321nat);
    assert(pow_mod(5, 1048574, 18446744069414584321) == 9685995654521421929);
    assert(pow_mod(5, 1048575, 18446744069414584321) == (5nat * 9685995654521421929nat) % 18446744069414584321nat);
    assert(pow_mod(5, 1048575, 18446744069414584321) == 11536490133777941003);
    assert(pow_mod(5, 2097150, 18446744069414584321) == (11536490133777941003nat * 11536490133777941003nat) % 18446744069414584321nat);
    assert(pow_mod(5, 2097150, 18446744069414584321) == 2477708611082178177);
    assert(pow_mod(5, 2097151, 18446744069414584321) == (5nat * 2477708611082178177nat) % 18446744069414584321nat);
    assert(pow_mod(5, 2097151, 18446744069414584321) == 12388543055410890885);
    assert(pow_mod(5, 4194302, 18446744069414584321) == (12388543055410890885nat * 12388543055410890885nat) % 18446744069414584321nat);
    assert(pow_mod(5, 4194302, 18446744069414584321) == 8928005568712052133);
    assert(pow_mod(5, 4194303, 18446744069414584321) == (5nat * 8928005568712052133nat) % 18446744069414584321nat);
    assert(pow_mod(5, 4194303, 18446744069414584321) == 7746539704731092023);
    assert(pow_mod(5, 8388606, 18446744069414584321) == (7746539704731092023nat * 7746539704731092023nat) % 18446744069414584321nat);
    assert(pow_mod(5, 8388606, 18446744069414584321) == 2902150746240544353);
    assert(pow_mod(5, 8388607, 18446744069414584321) == (5nat * 2902150746240544353nat) % 18446744069414584321nat);
    assert(pow_mod(5, 8388607, 18446744069414584321) == 14510753731202721765);
    assert(pow_mod(5, 16777214, 18446744069414584321) == (14510753731202721765nat * 14510753731202721765nat) % 18446744069414584321nat);
    assert(pow_mod(5, 16777214, 18446744069414584321) == 17591029148328991725);
    assert(pow_mod(5, 16777215, 18446744069414584321) == (5nat * 17591029148328991725nat) % 18446744069414584321nat);
    assert(pow_mod(5, 16777215, 18446744069414584321) == 14168169463986621341);
    assert(pow_mod(5, 33554430, 18446744069414584321) == (14168169463986621341nat * 14168169463986621341nat) % 18446744069414584321nat);
    assert(pow_mod(5, 33554430, 18446744069414584321) == 80464032530074545);
    assert(pow_mod(5, 33554431, 18446744069414584321) == (5nat * 80464032530074545nat) % 18446744069414584321nat);
    assert(pow_mod(5, 33554431, 18446744069414584321) == 402320162650372725);
    assert(pow_mod(5, 67108862, 18446744069414584321) == (402320162650372725nat * 402320162650372725nat) % 18446744069414584321nat);
    assert(pow_mod(5, 67108862, 18446744069414584321) == 12716462231740183878);
    assert(pow_mod(5, 67108863, 18446744069414584321) == (5nat * 12716462231740183878nat) % 18446744069414584321nat);
    assert(pow_mod(5, 67108863, 18446744069414584321) == 8242078950457166427);
    assert(pow_mod(5, 134217726, 18446744069414584321) == (8242078950457166427nat * 8242078950457166427nat) % 18446744069414584321nat);
    assert(pow_mod(5, 134217726, 18446744069414584321) == 3747470956701118573);
    assert(pow_mod(5, 134217727, 18446744069414584321) == (5nat * 3747470956701118573nat) % 18446744069414584321nat);
    assert(pow_mod(5, 134217727, 18446744069414584321) == 290610714091008544);
    assert(pow_mod(5, 268435454, 18446744069414584321) == (290610714091008544nat * 290610714091008544nat) % 18446744069414584321nat);
    assert(pow_mod(5, 268435454, 18446744069414584321) == 13936738409222056271);
    assert(pow_mod(5, 268435455, 18446744069414584321) == (5nat * 13936738409222056271nat) % 18446744069414584321nat);
    assert(pow_mod(5, 268435455, 18446744069414584321) == 14343459837866528392);
    assert(pow_mod(5, 536870910, 18446744069414584321) == (14343459837866528392nat * 14343459837866528392nat) % 18446744069414584321nat);
    assert(pow_mod(5, 536870910, 18446744069414584321) == 9334242845787806493);
    assert(pow_mod(5, 536870911, 18446744069414584321) == (5nat * 9334242845787806493nat) % 18446744069414584321nat);
    assert(pow_mod(5, 536870911, 18446744069414584321) == 9777726090109863823);
    assert(pow_mod(5, 1073741822, 18446744069414584321) == (9777726090109863823nat * 9777726090109863823nat) % 18446744069414584321nat);
    assert(pow_mod(5, 1073741822, 18446744069414584321) == 8489416228292070941);
    assert(pow_mod(5, 1073741823, 18446744069414584321) == (5nat * 8489416228292070941nat) % 18446744069414584321nat);
    assert(pow_mod(5, 1073741823, 18446744069414584321) == 5553593002631186063);
    assert(pow_mod(5, 2147483646, 18446744069414584321) == (5553593002631186063nat * 5553593002631186063nat) % 18446744069414584321nat);
    assert(pow_mod(5, 2147483646, 18446744069414584321) == 18230930823782992831);
    assert(pow_mod(5, 2147483647, 18446744069414584321) == (5nat * 18230930823782992831nat) % 18446744069414584321nat);
    assert(pow_mod(5, 2147483647, 18446744069414584321) == 17367677841256626871);
    assert(pow_mod(5, 4294967294, 18446744069414584321) == (17367677841256626871nat * 17367677841256626871nat) % 18446744069414584321nat);
    assert(pow_mod(5, 4294967294, 18446744069414584321) == 6082695020125897186);
    assert(pow_mod(5, 4294967295, 18446744069414584321) == (5nat * 6082695020125897186nat) % 18446744069414584321nat);
    assert(pow_mod(5, 4294967295, 18446744069414584321) == 11966731031214901609);
    assert(pow_mod(5, 8589934590, 18446744069414584321) == (11966731031214901609nat * 11966731031214901609nat) % 18446744069414584321nat);
    assert(pow_mod(5, 8589934590, 18446744069414584321) == 13604539831950636275);
    assert(pow_mod(5, 17179869180, 18446744069414584321) == (13604539831950636275nat * 13604539831950636275nat) % 18446744069414584321nat);
    assert(pow_mod(5, 17179869180, 18446744069414584321) == 7528789780052758468);
    assert(pow_mod(5, 34359738360, 18446744069414584321) == (7528789780052758468nat * 7528789780052758468nat) % 18446744069414584321nat);
    assert(pow_mod(5, 34359738360, 18446744069414584321) == 850459221214778213);
    assert(pow_mod(5, 68719476720, 18446744069414584321) == (850459221214778213nat * 850459221214778213nat) % 18446744069414584321nat);
    assert(pow_mod(5, 68719476720, 18446744069414584321) == 3306104683687364111);
    assert(pow_mod(5, 137438953440, 18446744069414584321) == (3306104683687364111nat * 3306104683687364111nat) % 18446744069414584321nat);
    assert(pow_mod(5, 137438953440, 18446744069414584321) == 17120000201215840372);
    assert(pow_mod(5, 274877906880, 18446744069414584321) == (17120000201215840372nat * 17120000201215840372nat) % 18446744069414584321nat);
    assert(pow_mod(5, 274877906880, 18446744069414584321) == 1164604266404377690);
    assert(pow_mod(5, 549755813760, 18446744069414584321) == (1164604266404377690nat * 1164604266404377690nat) % 18446744069414584321nat);
    assert(pow_mod(5, 549755813760, 18446744069414584321) == 8502381887629277561);
    assert(pow_mod(5, 1099511627520, 18446744069414584321) == (8502381887629277561nat * 8502381887629277561nat) % 18446744069414584321nat);
    assert(pow_mod(5, 1099511627520, 18446744069414584321) == 17580131633704100167);
    assert(pow_mod(5, 2199023255040, 18446744069414584321) == (17580131633704100167nat * 17580131633704100167nat) % 18446744069414584321nat);
    assert(pow_mod(5, 2199023255040, 18446744069414584321) == 5619555299314768224);
    assert(pow_mod(5, 4398046510080, 18446744069414584321) == (5619555299314768224nat * 5619555299314768224nat) % 18446744069414584321nat);
    assert(pow_mod(5, 4398046510080, 18446744069414584321) == 14079975898407613314);
    assert(pow_mod(5, 8796093020160, 18446744069414584321) == (14079975898407613314nat * 14079975898407613314nat) % 18446744069414584321nat);
    assert(pow_mod(5, 8796093020160, 18446744069414584321) == 16096333477155122460);
    assert(pow_mod(5, 17592186040320, 18446744069414584321) == (16096333477155122460nat * 16096333477155122460nat) % 18446744069414584321nat);
    assert(pow_mod(5, 17592186040320, 18446744069414584321) == 16952624134090976081);
    assert(pow_mod(5, 35184372080640, 18446744069414584321) == (16952624134090976081nat * 16952624134090976081nat) % 18446744069414584321nat);
    assert(pow_mod(5, 35184372080640, 18446744069414584321) == 5683004926272326947);
    assert(pow_mod(5, 70368744161280, 18446744069414584321) == (5683004926272326947nat * 5683004926272326947nat) % 18446744069414584321nat);
    assert(pow_mod(5, 70368744161280, 18446744069414584321) == 16243323356654902438);
    assert(pow_mod(5, 140737488322560, 18446744069414584321) == (16243323356654902438nat * 16243323356654902438nat) % 18446744069414584321nat);
    assert(pow_mod(5, 140737488322560, 18446744069414584321) == 5509613231504836405);
    assert(pow_mod(5, 281474976645120, 18446744069414584321) == (5509613231504836405nat * 5509613231504836405nat) % 18446744069414584321nat);
    assert(pow_mod(5, 281474976645120, 18446744069414584321) == 1447253155683062357);
    assert(pow_mod(5, 562949953290240, 18446744069414584321) == (1447253155683062357nat * 1447253155683062357nat) % 18446744069414584321nat);
    assert(pow_mod(5, 562949953290240, 18446744069414584321) == 9228961876687265310);
    assert(pow_mod(5, 1125899906580480, 18446744069414584321) == (9228961876687265310nat * 9228961876687265310nat) % 18446744069414584321nat);
    assert(pow_mod(5, 1125899906580480, 18446744069414584321) == 1128210963139182702);
    assert(pow_mod(5, 2251799813160960, 18446744069414584321) == (1128210963139182702nat * 1128210963139182702nat) % 18446744069414584321nat);
    assert(pow_mod(5, 2251799813160960, 18446744069414584321) == 1667663961206787309);
    assert(pow_mod(5, 4503599626321920, 18446744069414584321) == (1667663961206787309nat * 1667663961206787309nat) % 18446744069414584321nat);
    assert(pow_mod(5, 4503599626321920, 18446744069414584321) == 8440064356120562424);
    assert(pow_mod(5, 9007199252643840, 18446744069414584321) == (8440064356120562424nat * 8440064356120562424nat) % 18446744069414584321nat);
    assert(pow_mod(5, 9007199252643840, 18446744069414584321) == 13949976092203225093);
    assert(pow_mod(5, 18014398505287680, 18446744069414584321) == (13949976092203225093nat * 13949976092203225093nat) % 18446744069414584321nat);
    assert(pow_mod(5, 18014398505287680, 18446744069414584321) == 9780749169175637327);
    assert(pow_mod(5, 36028797010575360, 18446744069414584321) == (9780749169175637327nat * 9780749169175637327nat) % 18446744069414584321nat);
    assert(pow_mod(5, 36028797010575360, 18446744069414584321) == 4644772024090268603);
    assert(pow_mod(5, 72057594021150720, 18446744069414584321) == (4644772024090268603nat * 4644772024090268603nat) % 18446744069414584321nat);
    assert(pow_mod(5, 72057594021150720, 18446744069414584321) == 18374685375881805825);
    assert(pow_mod(5, 144115188042301440, 18446744069414584321) == (18374685375881805825nat * 18374685375881805825nat) % 18446744069414584321nat);
    assert(pow_mod(5, 144115188042301440, 18446744069414584321) == 18446744060824649729);
    assert(pow_mod(5, 288230376084602880, 18446744069414584321) == (18446744060824649729nat * 18446744060824649729nat) % 18446744069414584321nat);
    assert(pow_mod(5, 288230376084602880, 18446744069414584321) == 17179869180);
    assert(pow_mod(5, 576460752169205760, 18446744069414584321) == (17179869180nat * 17179869180nat) % 18446744069414584321nat);
    assert(pow_mod(5, 576460752169205760, 18446744069414584321) == 18446744000695107585);
    assert(pow_mod(5, 1152921504338411520, 18446744069414584321) == (18446744000695107585nat * 18446744000695107585nat) % 18446744069414584321nat);
    assert(pow_mod(5, 1152921504338411520, 18446744069414584321) == 1099511627520);
    assert(pow_mod(5, 2305843008676823040, 18446744069414584321) == (1099511627520nat * 1099511627520nat) % 18446744069414584321nat);
    assert(pow_mod(5, 2305843008676823040, 18446744069414584321) == 18446462594437873665);
    assert(pow_mod(5, 4611686017353646080, 18446744069414584321) == (18446462594437873665nat * 18446462594437873665nat) % 18446744069414584321nat);
    assert(pow_mod(5, 4611686017353646080, 18446744069414584321) == 18446744069414584320);
    assert(pow_mod(5, 9223372034707292160, 18446744069414584321) == (18446744069414584320nat * 18446744069414584320nat) % 18446744069414584321nat);
    assert(pow_mod(5, 9223372034707292160, 18446744069414584321) == 1);
}

/// 7^(q-1) = 1 modulo q.
pub proof fn lemma_pow_seven_full()
    ensures
        pow_mod(7, 18446744069414584320, 18446744069414584321) == 1,
{
    assert(pow_mod(7, 0, 18446744069414584321) == 1);
    assert(pow_mod(7, 1, 18446744069414584321) == (7nat * 1nat) % 18446744069414584321nat);
    assert(pow_mod(7, 1, 18446744069414584321) == 7);
    assert(pow_mod(7, 2, 18446744069414584321) == (7nat * 7nat) % 18446744069414584321nat);
    assert(pow_mod(7, 2, 18446744069414584321) == 49);
    assert(pow_mod(7, 3, 18446744069414584321) == (7nat * 49nat) % 18446744069414584321nat);
    assert(pow_mod(7, 3, 18446744069414584321) == 343);
    assert(pow_mod(7, 6, 18446744069414584321) == (343nat * 343nat) % 18446744069414584321nat);
    assert(pow_mod(7, 6, 18446744069414584321) == 117649);
    assert(pow_mod(7, 7, 18446744069414584321) == (7nat * 117649nat) % 18446744069414584321nat);
    assert(pow_mod(7, 7, 18446744069414584321) == 823543);
    assert(pow_mod(7, 14, 18446744069414584321) == (823543nat * 823543nat) % 18446744069414584321nat);
    assert(pow_mod(7, 14, 18446744069414584321) == 678223072849);
    assert(pow_mod(7, 15, 18446744069414584321) == (7nat * 678223072849nat) % 18446744069414584321nat);
    assert(pow_mod(7, 15, 18446744069414584321) == 4747561509943);
    assert(pow_mod(7, 30, 18446744069414584321) == (4747561509943nat * 4747561509943nat) % 18446744069414584321nat);
    assert(pow_mod(7, 30, 18446744069414584321) == 1582037354089406189);
    assert(pow_mod(7, 31, 18446744069414584321) == (7nat * 1582037354089406189nat) % 18446744069414584321nat);
    assert(pow_mod(7, 31, 18446744069414584321) == 11074261478625843323);
    assert(pow_mod(7, 62, 18446744069414584321) == (11074261478625843323nat * 11074261478625843323nat) % 18446744069414584321nat);
    assert(pow_mod(7, 62, 18446744069414584321) == 14911712358349047125);
    assert(pow_mod(7, 63, 18446744069414584321) == (7nat * 14911712358349047125nat) % 18446744069414584321nat);
    assert(pow_mod(7, 63, 18446744069414584321) == 12148266161370408270);
    assert(pow_mod(7, 126, 18446744069414584321) == (12148266161370408270nat * 12148266161370408270nat) % 18446744069414584321nat);
    assert(pow_mod(7, 126, 18446744069414584321) == 14177331716484271384);
    assert(pow_mod(7, 127, 18446744069414584321) == (7nat * 14177331716484271384nat) % 18446744069414584321nat);
    assert(pow_mod(7, 127, 18446744069414584321) == 7007601668316978083);
    assert(pow_mod(7, 254, 18446744069414584321) == (7007601668316978083nat * 7007601668316978083nat) % 18446744069414584321nat);
    assert(pow_mod(7, 254, 18446744069414584321) == 1160753142525841411);
    assert(pow_mod(7, 255, 18446744069414584321) == (7nat * 1160753142525841411nat) % 18446744069414584321nat);
    assert(pow_mod(7, 255, 18446744069414584321) == 8125271997680889877);
    assert(pow_mod(7, 510, 18446744069414584321) == (8125271997680889877nat * 8125271997680889877nat) % 18446744069414584321nat);
    assert(pow_mod(7, 510, 18446744069414584321) == 10915923311382173605);
    assert(pow_mod(7, 511, 18446744069414584321) == (7nat * 10915923311382173605nat) % 18446744069414584321nat);
    assert(pow_mod(7, 511, 18446744069414584321) == 2624486902016877951);
    assert(pow_mod(7, 1022, 18446744069414584321) == (2624486902016877951nat * 2624486902016877951nat) % 18446744069414584321nat);
    assert(pow_mod(7, 1022, 18446744069414584321) == 1179017105118043277);
    assert(pow_mod(7, 1023, 18446744069414584321) == (7nat * 1179017105118043277nat) % 18446744069414584321nat);
    assert(pow_mod(7, 1023, 18446744069414584321) == 8253119735826302939);
    assert(pow_mod(7, 2046, 18446744069414584321) == (8253119735826302939nat * 8253119735826302939nat) % 18446744069414584321nat);
    assert(pow_mod(7, 2046, 18446744069414584321) == 13682469552810377440);
    assert(pow_mod(7, 2047, 18446744069414584321) == (7nat * 13682469552810377440nat) % 18446744069414584321nat);
    assert(pow_mod(7, 2047, 18446744069414584321) == 3543566522599720475);
    assert(pow_mod(7, 4094, 18446744069414584321) == (3543566522599720475nat * 3543566522599720475nat) % 18446744069414584321nat);
    assert(pow_mod(7, 4094, 18446744069414584321) == 12252646851770615269);
    assert(pow_mod(7, 4095, 18446744069414584321) == (7nat * 12252646851770615269nat) % 18446744069414584321nat);
    assert(pow_mod(7, 4095, 18446744069414584321) == 11981551684735969599);
    assert(pow_mod(7, 8190, 18446744069414584321) == (11981551684735969599nat * 11981551684735969599nat) % 18446744069414584321nat);
    assert(pow_mod(7, 8190, 18446744069414584321) == 9343193256669382154);
    assert(pow_mod(7, 8191, 18446744069414584321) == (7nat * 9343193256669382154nat) % 18446744069414584321nat);
    assert(pow_mod(7, 8191, 18446744069414584321) == 10062120588441922115);
    assert(pow_mod(7, 16382, 18446744069414584321) == (10062120588441922115nat * 10062120588441922115nat) % 18446744069414584321nat);
    assert(pow_mod(7, 16382, 18446744069414584321) == 4133221502128927102);
    assert(pow_mod(7, 16383, 18446744069414584321) == (7nat * 4133221502128927102nat) % 18446744069414584321nat);
    assert(pow_mod(7, 16383, 18446744069414584321) == 10485806445487905393);
    assert(pow_mod(7, 32766, 18446744069414584321) == (10485806445487905393nat * 10485806445487905393nat) % 18446744069414584321nat);
    assert(pow_mod(7, 32766, 18446744069414584321) == 5861853314594190514);
    assert(pow_mod(7, 32767, 18446744069414584321) == (7nat * 5861853314594190514nat) % 18446744069414584321nat);
    assert(pow_mod(7, 32767, 18446744069414584321) == 4139485063330164956);
    assert(pow_mod(7, 65534, 18446744069414584321) == (4139485063330164956nat * 4139485063330164956nat) % 18446744069414584321nat);
    assert(pow_mod(7, 65534, 18446744069414584321) == 7004045467739516513);
    assert(pow_mod(7, 65535, 18446744069414584321) == (7nat * 7004045467739516513nat) % 18446744069414584321nat);
    assert(pow_mod(7, 65535, 18446744069414584321) == 12134830135347446949);
    assert(pow_mod(7, 131070, 18446744069414584321) == (12134830135347446949nat * 12134830135347446949nat) % 18446744069414584321nat);
    assert(pow_mod(7, 131070, 18446744069414584321) == 618113109518621269);
    assert(pow_mod(7, 131071, 18446744069414584321) == (7nat * 618113109518621269nat) % 18446744069414584321nat);
    assert(pow_mod(7, 131071, 18446744069414584321) == 4326791766630348883);
    assert(pow_mod(7, 262142, 18446744069414584321) == (4326791766630348883nat * 4326791766630348883nat) % 18446744069414584321nat);
    assert(pow_mod(7, 262142, 18446744069414584321) == 13205783127219969319);
    assert(pow_mod(7, 262143, 18446744069414584321) == (7nat * 13205783127219969319nat) % 18446744069414584321nat);
    assert(pow_mod(7, 262143, 18446744069414584321) == 206761543466863628);
    assert(pow_mod(7, 524286, 18446744069414584321) == (206761543466863628nat * 206761543466863628nat) % 18446744069414584321nat);
    assert(pow_mod(7, 524286, 18446744069414584321) == 14617186517222294718);
    assert(pow_mod(7, 524287, 18446744069414584321) == (7nat * 14617186517222294718nat) % 18446744069414584321nat);
    assert(pow_mod(7, 524287, 18446744069414584321) == 10086585273483141421);
    assert(pow_mod(7, 1048574, 18446744069414584321) == (10086585273483141421nat * 10086585273483141421nat) % 18446744069414584321nat);
    assert(pow_mod(7, 1048574, 18446744069414584321) == 5535602650859329748);
    assert(pow_mod(7, 1048575, 18446744069414584321) == (7nat * 5535602650859329748nat) % 18446744069414584321nat);
    assert(pow_mod(7, 1048575, 18446744069414584321) == 1855730417186139594);
    assert(pow_mod(7, 2097150, 18446744069414584321) == (1855730417186139594nat * 1855730417186139594nat) % 18446744069414584321nat);
    assert(pow_mod(7, 2097150, 18446744069414584321) == 3724741596018185032);
    assert(pow_mod(7, 2097151, 18446744069414584321) == (7nat * 3724741596018185032nat) % 18446744069414584321nat);
    assert(pow_mod(7, 2097151, 18446744069414584321) == 7626447102712710903);
    assert(pow_mod(7, 4194302, 18446744069414584321) == (7626447102712710903nat * 7626447102712710903nat) % 18446744069414584321nat);
    assert(pow_mod(7, 4194302, 18446744069414584321) == 11653985196031332500);
    assert(pow_mod(7, 4194303, 18446744069414584321) == (7nat * 11653985196031332500nat) % 18446744069414584321nat);
    assert(pow_mod(7, 4194303, 18446744069414584321) == 7790920094560990216);
    assert(pow_mod(7, 8388606, 18446744069414584321) == (7790920094560990216nat * 7790920094560990216nat) % 18446744069414584321nat);
    assert(pow_mod(7, 8388606, 18446744069414584321) == 16654626667483233145);
    assert(pow_mod(7, 8388607, 18446744069414584321) == (7nat * 16654626667483233145nat) % 18446744069414584321nat);
    assert(pow_mod(7, 8388607, 18446744069414584321) == 5901922255895126089);
    assert(pow_mod(7, 16777214, 18446744069414584321) == (5901922255895126089nat * 5901922255895126089nat) % 18446744069414584321nat);
    assert(pow_mod(7, 16777214, 18446744069414584321) == 9182212999444825067);
    assert(pow_mod(7, 16777215, 18446744069414584321) == (7nat * 9182212999444825067nat) % 18446744069414584321nat);
    assert(pow_mod(7, 16777215, 18446744069414584321) == 8935258787870022506);
    assert(pow_mod(7, 33554430, 18446744069414584321) == (8935258787870022506nat * 8935258787870022506nat) % 18446744069414584321nat);
    assert(pow_mod(7, 33554430, 18446744069414584321) == 17682034324931514088);
    assert(pow_mod(7, 33554431, 18446744069414584321) == (7nat * 17682034324931514088nat) % 18446744069414584321nat);
    assert(pow_mod(7, 33554431, 18446744069414584321) == 13093775858033092690);
    assert(pow_mod(7, 67108862, 18446744069414584321) == (13093775858033092690nat * 13093775858033092690nat) % 18446744069414584321nat);
    assert(pow_mod(7, 67108862, 18446744069414584321) == 9511995656157268947);
    assert(pow_mod(7, 67108863, 18446744069414584321) == (7nat * 9511995656157268947nat) % 18446744069414584321nat);
    assert(pow_mod(7, 67108863, 18446744069414584321) == 11243737384857129666);
    assert(pow_mod(7, 134217726, 18446744069414584321) == (11243737384857129666nat * 11243737384857129666nat) % 18446744069414584321nat);
    assert(pow_mod(7, 134217726, 18446744069414584321) == 16106297366990222687);
    assert(pow_mod(7, 134217727, 18446744069414584321) == (7nat * 16106297366990222687nat) % 18446744069414584321nat);
    assert(pow_mod(7, 134217727, 18446744069414584321) == 2063617152444052883);
    assert(pow_mod(7, 268435454, 18446744069414584321) == (2063617152444052883nat * 2063617152444052883nat) % 18446744069414584321nat);
    assert(pow_mod(7, 268435454, 18446744069414584321) == 4501656151559876649);
    assert(pow_mod(7, 268435455, 18446744069414584321) == (7nat * 4501656151559876649nat) % 18446744069414584321nat);
    assert(pow_mod(7, 268435455, 18446744069414584321) == 13064848991504552222);
    assert(pow_mod(7, 536870910, 18446744069414584321) == (13064848991504552222nat * 13064848991504552222nat) % 18446744069414584321nat);
    assert(pow_mod(7, 536870910, 18446744069414584321) == 2370486178716065012);
    assert(pow_mod(7, 536870911, 18446744069414584321) == (7nat * 2370486178716065012nat) % 18446744069414584321nat);
    assert(pow_mod(7, 536870911, 18446744069414584321) == 16593403251012455084);
    assert(pow_mod(7, 1073741822, 18446744069414584321) == (16593403251012455084nat * 16593403251012455084nat) % 18446744069414584321nat);
    assert(pow_mod(7, 1073741822, 18446744069414584321) == 14013264900002007546);
    assert(pow_mod(7, 1073741823, 18446744069414584321) == (7nat * 14013264900002007546nat) % 18446744069414584321nat);
    assert(pow_mod(7, 1073741823, 18446744069414584321) == 5859133952941131217);
    assert(pow_mod(7, 2147483646, 18446744069414584321) == (5859133952941131217nat * 5859133952941131217nat) % 18446744069414584321nat);
    assert(pow_mod(7, 2147483646, 18446744069414584321) == 10142762553374040318);
    assert(pow_mod(7, 2147483647, 18446744069414584321) == (7nat * 10142762553374040318nat) % 18446744069414584321nat);
    assert(pow_mod(7, 2147483647, 18446744069414584321) == 15659105665374529263);
    assert(pow_mod(7, 4294967294, 18446744069414584321) == (15659105665374529263nat * 15659105665374529263nat) % 18446744069414584321nat);
    assert(pow_mod(7, 4294967294, 18446744069414584321) == 16062014221418238814);
    assert(pow_mod(7, 4294967295, 18446744069414584321) == (7nat * 16062014221418238814nat) % 18446744069414584321nat);
    assert(pow_mod(7, 4294967295, 18446744069414584321) == 1753635133440165772);
    assert(pow_mod(7, 8589934590, 18446744069414584321) == (1753635133440165772nat * 1753635133440165772nat) % 18446744069414584321nat);
    assert(pow_mod(7, 8589934590, 18446744069414584321) == 4614640910117430873);
    assert(pow_mod(7, 17179869180, 18446744069414584321) == (4614640910117430873nat * 4614640910117430873nat) % 18446744069414584321nat);
    assert(pow_mod(7, 17179869180, 18446744069414584321) == 9123114210336311365);
    assert(pow_mod(7, 34359738360, 18446744069414584321) == (9123114210336311365nat * 9123114210336311365nat) % 18446744069414584321nat);
    assert(pow_mod(7, 34359738360, 18446744069414584321) == 16116352524544190054);
    assert(pow_mod(7, 68719476720, 18446744069414584321) == (16116352524544190054nat * 16116352524544190054nat) % 18446744069414584321nat);
    assert(pow_mod(7, 68719476720, 18446744069414584321) == 6414415596519834757);
    assert(pow_mod(7, 137438953440, 18446744069414584321) == (6414415596519834757nat * 6414415596519834757nat) % 18446744069414584321nat);
    assert(pow_mod(7, 137438953440, 18446744069414584321) == 1213594585890690845);
    assert(pow_mod(7, 274877906880, 18446744069414584321) == (1213594585890690845nat * 1213594585890690845nat) % 18446744069414584321nat);
    assert(pow_mod(7, 274877906880, 18446744069414584321) == 17096174751763063430);
    assert(pow_mod(7, 549755813760, 18446744069414584321) == (17096174751763063430nat * 17096174751763063430nat) % 18446744069414584321nat);
    assert(pow_mod(7, 549755813760, 18446744069414584321) == 5456943929260765144);
    assert(pow_mod(7, 1099511627520, 18446744069414584321) == (5456943929260765144nat * 5456943929260765144nat) % 18446744069414584321nat);
    assert(pow_mod(7, 1099511627520, 18446744069414584321) == 9713644485405565297);
    assert(pow_mod(7, 2199023255040, 18446744069414584321) == (9713644485405565297nat * 9713644485405565297nat) % 18446744069414584321nat);
    assert(pow_mod(7, 2199023255040, 18446744069414584321) == 16905767614792059275);
    assert(pow_mod(7, 4398046510080, 18446744069414584321) == (16905767614792059275nat * 16905767614792059275nat) % 18446744069414584321nat);
    assert(pow_mod(7, 4398046510080, 18446744069414584321) == 5416168637041100469);
    assert(pow_mod(7, 8796093020160, 18446744069414584321) == (5416168637041100469nat * 5416168637041100469nat) % 18446744069414584321nat);
    assert(pow_mod(7, 8796093020160, 18446744069414584321) == 17654865857378133588);
    assert(pow_mod(7, 17592186040320, 18446744069414584321) == (17654865857378133588nat * 17654865857378133588nat) % 18446744069414584321nat);
    assert(pow_mod(7, 17592186040320, 18446744069414584321) == 3511170319078647661);
    assert(pow_mod(7, 35184372080640, 18446744069414584321) == (3511170319078647661nat * 3511170319078647661nat) % 18446744069414584321nat);
    assert(pow_mod(7, 35184372080640, 18446744069414584321) == 18146160046829613826);
    assert(pow_mod(7, 70368744161280, 18446744069414584321) == (18146160046829613826nat * 18146160046829613826nat) % 18446744069414584321nat);
    assert(pow_mod(7, 70368744161280, 18446744069414584321) == 9306717745644682924);
    assert(pow_mod(7, 140737488322560, 18446744069414584321) == (9306717745644682924nat * 9306717745644682924nat) % 18446744069414584321nat);
    assert(pow_mod(7, 140737488322560, 18446744069414584321) == 12380578893860276750);
    assert(pow_mod(7, 281474976645120, 18446744069414584321) == (12380578893860276750nat * 12380578893860276750nat) % 18446744069414584321nat);
    assert(pow_mod(7, 281474976645120, 18446744069414584321) == 6115771955107415310);
    assert(pow_mod(7, 562949953290240, 18446744069414584321) == (6115771955107415310nat * 6115771955107415310nat) % 18446744069414584321nat);
    assert(pow_mod(7, 562949953290240, 18446744069414584321) == 17776499369601055404);
    assert(pow_mod(7, 1125899906580480, 18446744069414584321) == (17776499369601055404nat * 17776499369601055404nat) % 18446744069414584321nat);
    assert(pow_mod(7, 1125899906580480, 18446744069414584321) == 16207902636198568418);
    assert(pow_mod(7, 2251799813160960, 18446744069414584321) == (16207902636198568418nat * 16207902636198568418nat) % 18446744069414584321nat);
    assert(pow_mod(7, 2251799813160960, 18446744069414584321) == 1532612707718625687);
    assert(pow_mod(7, 4503599626321920, 18446744069414584321) == (1532612707718625687nat * 1532612707718625687nat) % 18446744069414584321nat);
    assert(pow_mod(7, 4503599626321920, 18446744069414584321) == 17492915097719143606);
    assert(pow_mod(7, 9007199252643840, 18446744069414584321) == (17492915097719143606nat * 17492915097719143606nat) % 18446744069414584321nat);
    assert(pow_mod(7, 9007199252643840, 18446744069414584321) == 455906449640507599);
    assert(pow_mod(7, 18014398505287680, 18446744069414584321) == (455906449640507599nat * 455906449640507599nat) % 18446744069414584321nat);
    assert(pow_mod(7, 18014398505287680, 18446744069414584321) == 11353340290879379826);
    assert(pow_mod(7, 36028797010575360, 18446744069414584321) == (11353340290879379826nat * 11353340290879379826nat) % 18446744069414584321nat);
    assert(pow_mod(7, 36028797010575360, 18446744069414584321) == 1803076106186727246);
    assert(pow_mod(7, 72057594021150720, 18446744069414584321) == (1803076106186727246nat * 1803076106186727246nat) % 18446744069414584321nat);
    assert(pow_mod(7, 72057594021150720, 18446744069414584321) == 13797081185216407910);
    assert(pow_mod(7, 144115188042301440, 18446744069414584321) == (13797081185216407910nat * 13797081185216407910nat) % 18446744069414584321nat);
    assert(pow_mod(7, 144115188042301440, 18446744069414584321) == 17870292113338400769);
    assert(pow_mod(7, 288230376084602880, 18446744069414584321) == (17870292113338400769nat * 17870292113338400769nat) % 18446744069414584321nat);
    assert(pow_mod(7, 288230376084602880, 18446744069414584321) == 549755813888);
    assert(pow_mod(7, 576460752169205760, 18446744069414584321) == (549755813888nat * 549755813888nat) % 18446744069414584321nat);
    assert(pow_mod(7, 576460752169205760, 18446744069414584321) == 70368744161280);
    assert(pow_mod(7, 1152921504338411520, 18446744069414584321) == (70368744161280nat * 70368744161280nat) % 18446744069414584321nat);
    assert(pow_mod(7, 1152921504338411520, 18446744069414584321) == 17293822564807737345);
    assert(pow_mod(7, 2305843008676823040, 18446744069414584321) == (17293822564807737345nat * 17293822564807737345nat) % 18446744069414584321nat);
    assert(pow_mod(7, 2305843008676823040, 18446744069414584321) == 18446744069397807105);
    assert(pow_mod(7, 4611686017353646080, 18446744069414584321) == (18446744069397807105nat * 18446744069397807105nat) % 18446744069414584321nat);
    assert(pow_mod(7, 4611686017353646080, 18446744069414584321) == 281474976710656);
    assert(pow_mod(7, 9223372034707292160, 18446744069414584321) == (281474976710656nat * 281474976710656nat) % 18446744069414584321nat);
    assert(pow_mod(7, 9223372034707292160, 18446744069414584321) == 18446744069414584320);
    assert(pow_mod(7, 18446744069414584320, 18446744069414584321) == (18446744069414584320nat * 18446744069414584320nat) % 18446744069414584321nat);
    assert(pow_mod(7, 18446744069414584320, 18446744069414584321) == 1);
}

/// 7^((q-1)/3) modulo q, which is not 1.
pub proof fn lemma_pow_seven_over_3()
    ensures
        pow_mod(7, 6148914689804861440, 18446744069414584321) == 18446744065119617025,
{
    assert(pow_mod(7, 0, 18446744069414584321) == 1);
    assert(pow_mod(7, 1, 18446744069414584321) == (7nat * 1nat) % 18446744069414584321nat);
    assert(pow_mod(7, 1, 18446744069414584321) == 7);
    assert(pow_mod(7, 2, 18446744069414584321) == (7nat * 7nat) % 18446744069414584321nat);
    assert(pow_mod(7, 2, 18446744069414584321) == 49);
    assert(pow_mod(7, 4, 18446744069414584321) == (49nat * 49nat) % 18446744069414584321nat);
    assert(pow_mod(7, 4, 18446744069414584321) == 2401);
    assert(pow_mod(7, 5, 18446744069414584321) == (7nat * 2401nat) % 18446744069414584321nat);
    assert(pow_mod(7, 5, 18446744069414584321) == 16807);
    assert(pow_mod(7, 10, 18446744069414584321) == (16807nat * 16807nat) % 18446744069414584321nat);
    assert(pow_mod(7, 10, 18446744069414584321) == 282475249);
    assert(pow_mod(7, 20, 18446744069414584321) == (282475249nat * 282475249nat) % 18446744069414584321nat);
    assert(pow_mod(7, 20, 18446744069414584321) == 79792266297612001);
    assert(pow_mod(7, 21, 18446744069414584321) == (7nat * 79792266297612001nat) % 18446744069414584321nat);
    assert(pow_mod(7, 21, 18446744069414584321) == 558545864083284007);
    assert(pow_mod(7, 42, 18446744069414584321) == (558545864083284007nat * 558545864083284007nat) % 18446744069414584321nat);
    assert(pow_mod(7, 42, 18446744069414584321) == 8022122801911579307);
    assert(pow_mod(7, 84, 18446744069414584321) == (8022122801911579307nat * 8022122801911579307nat) % 18446744069414584321nat);
    assert(pow_mod(7, 84, 18446744069414584321) == 4463956420510902100);
    assert(pow_mod(7, 85, 18446744069414584321) == (7nat * 4463956420510902100nat) % 18446744069414584321nat);
    assert(pow_mod(7, 85, 18446744069414584321) == 12800950874161730379);
    assert(pow_mod(7, 170, 18446744069414584321) == (12800950874161730379nat * 12800950874161730379nat) % 18446744069414584321nat);
    assert(pow_mod(7, 170, 18446744069414584321) == 14271156885488964304);
    assert(pow_mod(7, 340, 18446744069414584321) == (14271156885488964304nat * 14271156885488964304nat) % 18446744069414584321nat);
    assert(pow_mod(7, 340, 18446744069414584321) == 6640181542876171230);
    assert(pow_mod(7, 341, 18446744069414584321) == (7nat * 6640181542876171230nat) % 18446744069414584321nat);
    assert(pow_mod(7, 341, 18446744069414584321) == 9587782661304029968);
    assert(pow_mod(7, 682, 18446744069414584321) == (9587782661304029968nat * 9587782661304029968nat) % 18446744069414584321nat);
    assert(pow_mod(7, 682, 18446744069414584321) == 10276868313419320864);
    assert(pow_mod(7, 1364, 18446744069414584321) == (10276868313419320864nat * 10276868313419320864nat) % 18446744069414584321nat);
    assert(pow_mod(7, 1364, 18446744069414584321) == 12692611838971331761);
    assert(pow_mod(7, 1365, 18446744069414584321) == (7nat * 12692611838971331761nat) % 18446744069414584321nat);
    assert(pow_mod(7, 1365, 18446744069414584321) == 15061306595140985043);
    assert(pow_mod(7, 2730, 18446744069414584321) == (15061306595140985043nat * 15061306595140985043nat) % 18446744069414584321nat);
    assert(pow_mod(7, 2730, 18446744069414584321) == 10087193495066827832);
    assert(pow_mod(7, 5460, 18446744069414584321) == (10087193495066827832nat * 10087193495066827832nat) % 18446744069414584321nat);
    assert(pow_mod(7, 5460, 18446744069414584321) == 17666492521142301186);
    assert(pow_mod(7, 5461, 18446744069414584321) == (7nat * 17666492521142301186nat) % 18446744069414584321nat);
    assert(pow_mod(7, 5461, 18446744069414584321) == 12984983231508602376);
    assert(pow_mod(7, 10922, 18446744069414584321) == (12984983231508602376nat * 12984983231508602376nat) % 18446744069414584321nat);
    assert(pow_mod(7, 10922, 18446744069414584321) == 1362657970957379548);
    assert(pow_mod(7, 21844, 18446744069414584321) == (1362657970957379548nat * 1362657970957379548nat) % 18446744069414584321nat);
    assert(pow_mod(7, 21844, 18446744069414584321) == 14866894507972756995);
    assert(pow_mod(7, 21845, 18446744069414584321) == (7nat * 14866894507972756995nat) % 18446744069414584321nat);
    assert(pow_mod(7, 21845, 18446744069414584321) == 11834541208736377360);
    assert(pow_mod(7, 43690, 18446744069414584321) == (11834541208736377360nat * 11834541208736377360nat) % 18446744069414584321nat);
    assert(pow_mod(7, 43690, 18446744069414584321) == 15486580570079272365);
    assert(pow_mod(7, 87380, 18446744069414584321) == (15486580570079272365nat * 15486580570079272365nat) % 18446744069414584321nat);
    assert(pow_mod(7, 87380, 18446744069414584321) == 8219357140934485557);
    assert(pow_mod(7, 87381, 18446744069414584321) == (7nat * 8219357140934485557nat) % 18446744069414584321nat);
    assert(pow_mod(7, 87381, 18446744069414584321) == 2195267778297645936);
    assert(pow_mod(7, 174762, 18446744069414584321) == (2195267778297645936nat * 2195267778297645936nat) % 18446744069414584321nat);
    assert(pow_mod(7, 174762, 18446744069414584321) == 12545318111885672966);
    assert(pow_mod(7, 349524, 18446744069414584321) == (12545318111885672966nat * 12545318111885672966nat) % 18446744069414584321nat);
    assert(pow_mod(7, 349524, 18446744069414584321) == 16274283408395477026);
    assert(pow_mod(7, 349525, 18446744069414584321) == (7nat * 16274283408395477026nat) % 18446744069414584321nat);
    assert(pow_mod(7, 349525, 18446744069414584321) == 3239519442280833256);
    assert(pow_mod(7, 699050, 18446744069414584321) == (3239519442280833256nat * 3239519442280833256nat) % 18446744069414584321nat);
    assert(pow_mod(7, 699050, 18446744069414584321) == 11109814195885452171);
    assert(pow_mod(7, 1398100, 18446744069414584321) == (11109814195885452171nat * 11109814195885452171nat) % 18446744069414584321nat);
    assert(pow_mod(7, 1398100, 18446744069414584321) == 8592128779201082244);
    assert(pow_mod(7, 1398101, 18446744069414584321) == (7nat * 8592128779201082244nat) % 18446744069414584321nat);
    assert(pow_mod(7, 1398101, 18446744069414584321) == 4804669246163822745);
    assert(pow_mod(7, 2796202, 18446744069414584321) == (4804669246163822745nat * 4804669246163822745nat) % 18446744069414584321nat);
    assert(pow_mod(7, 2796202, 18446744069414584321) == 438903447396483212);
    assert(pow_mod(7, 5592404, 18446744069414584321) == (438903447396483212nat * 438903447396483212nat) % 18446744069414584321nat);
    assert(pow_mod(7, 5592404, 18446744069414584321) == 16528309341332431468);
    assert(pow_mod(7, 5592405, 18446744069414584321) == (7nat * 16528309341332431468nat) % 18446744069414584321nat);
    assert(pow_mod(7, 5592405, 18446744069414584321) == 5017700972839514350);
    assert(pow_mod(7, 11184810, 18446744069414584321) == (5017700972839514350nat * 5017700972839514350nat) % 18446744069414584321nat);
    assert(pow_mod(7, 11184810, 18446744069414584321) == 7499557959359525151);
    assert(pow_mod(7, 22369620, 18446744069414584321) == (7499557959359525151nat * 7499557959359525151nat) % 18446744069414584321nat);
    assert(pow_mod(7, 22369620, 18446744069414584321) == 6501481669499740747);
    assert(pow_mod(7, 22369621, 18446744069414584321) == (7nat * 6501481669499740747nat) % 18446744069414584321nat);
    assert(pow_mod(7, 22369621, 18446744069414584321) == 8616883547669016587);
    assert(pow_mod(7, 44739242, 18446744069414584321) == (8616883547669016587nat * 8616883547669016587nat) % 18446744069414584321nat);
    assert(pow_mod(7, 44739242, 18446744069414584321) == 458110968676413213);
    assert(pow_mod(7, 89478484, 18446744069414584321) == (458110968676413213nat * 458110968676413213nat) % 18446744069414584321nat);
    assert(pow_mod(7, 89478484, 18446744069414584321) == 1678842135369159008);
    assert(pow_mod(7, 89478485, 18446744069414584321) == (7nat * 1678842135369159008nat) % 18446744069414584321nat);
    assert(pow_mod(7, 89478485, 18446744069414584321) == 11751894947584113056);
    assert(pow_mod(7, 178956970, 18446744069414584321) == (11751894947584113056nat * 11751894947584113056nat) % 18446744069414584321nat);
    assert(pow_mod(7, 178956970, 18446744069414584321) == 525895266577965633);
    assert(pow_mod(7, 357913940, 18446744069414584321) == (525895266577965633nat * 525895266577965633nat) % 18446744069414584321nat);
    assert(pow_mod(7, 357913940, 18446744069414584321) == 8359630718448719682);
    assert(pow_mod(7, 357913941, 18446744069414584321) == (7nat * 8359630718448719682nat) % 18446744069414584321nat);
    assert(pow_mod(7, 357913941, 18446744069414584321) == 3177182820897284811);
    assert(pow_mod(7, 715827882, 18446744069414584321) == (3177182820897284811nat * 3177182820897284811nat) % 18446744069414584321nat);
    assert(pow_mod(7, 715827882, 18446744069414584321) == 7964267603545906836);
    assert(pow_mod(7, 1431655764, 18446744069414584321) == (7964267603545906836nat * 7964267603545906836nat) % 18446744069414584321nat);
    assert(pow_mod(7, 1431655764, 18446744069414584321) == 17834245605091780246);
    assert(pow_mod(7, 1431655765, 18446744069414584321) == (7nat * 17834245605091780246nat) % 18446744069414584321nat);
    assert(pow_mod(7, 1431655765, 18446744069414584321) == 14159254819154955796);
    assert(pow_mod(7, 2863311530, 18446744069414584321) == (14159254819154955796nat * 14159254819154955796nat) % 18446744069414584321nat);
    assert(pow_mod(7, 2863311530, 18446744069414584321) == 998724450546658713);
    assert(pow_mod(7, 5726623060, 18446744069414584321) == (998724450546658713nat * 998724450546658713nat) % 18446744069414584321nat);
    assert(pow_mod(7, 5726623060, 18446744069414584321) == 1811047956385014016);
    assert(pow_mod(7, 11453246120, 18446744069414584321) == (1811047956385014016nat * 1811047956385014016nat) % 18446744069414584321nat);
    assert(pow_mod(7, 11453246120, 18446744069414584321) == 2957134717709447844);
    assert(pow_mod(7, 22906492240, 18446744069414584321) == (2957134717709447844nat * 2957134717709447844nat) % 18446744069414584321nat);
    assert(pow_mod(7, 22906492240, 18446744069414584321) == 8418656202527058970);
    assert(pow_mod(7, 45812984480, 18446744069414584321) == (8418656202527058970nat * 8418656202527058970nat) % 18446744069414584321nat);
    assert(pow_mod(7, 45812984480, 18446744069414584321) == 9344165103595421707);
    assert(pow_mod(7, 91625968960, 18446744069414584321) == (9344165103595421707nat * 9344165103595421707nat) % 18446744069414584321nat);
    assert(pow_mod(7, 91625968960, 18446744069414584321) == 12398472707942400981);
    assert(pow_mod(7, 183251937920, 18446744069414584321) == (12398472707942400981nat * 12398472707942400981nat) % 18446744069414584321nat);
    assert(pow_mod(7, 183251937920, 18446744069414584321) == 10977358340789161543);
    assert(pow_mod(7, 366503875840, 18446744069414584321) == (10977358340789161543nat * 10977358340789161543nat) % 18446744069414584321nat);
    assert(pow_mod(7, 366503875840, 18446744069414584321) == 14519574879452399500);
    assert(pow_mod(7, 733007751680, 18446744069414584321) == (14519574879452399500nat * 14519574879452399500nat) % 18446744069414584321nat);
    assert(pow_mod(7, 733007751680, 18446744069414584321) == 3056692624244734627);
    assert(pow_mod(7, 1466015503360, 18446744069414584321) == (3056692624244734627nat * 3056692624244734627nat) % 18446744069414584321nat);
    assert(pow_mod(7, 1466015503360, 18446744069414584321) == 17973258314804772181);
    assert(pow_mod(7, 2932031006720, 18446744069414584321) == (17973258314804772181nat * 17973258314804772181nat) % 18446744069414584321nat);
    assert(pow_mod(7, 2932031006720, 18446744069414584321) == 15462695660743809749);
    assert(pow_mod(7, 5864062013440, 18446744069414584321) == (15462695660743809749nat * 15462695660743809749nat) % 18446744069414584321nat);
    assert(pow_mod(7, 5864062013440, 18446744069414584321) == 18046908317468628738);
    assert(pow_mod(7, 11728124026880, 18446744069414584321) == (18046908317468628738nat * 18046908317468628738nat) % 18446744069414584321nat);
    assert(pow_mod(7, 11728124026880, 18446744069414584321) == 9144605907772536802);
    assert(pow_mod(7, 23456248053760, 18446744069414584321) == (9144605907772536802nat * 9144605907772536802nat) % 18446744069414584321nat);
    assert(pow_mod(7, 23456248053760, 18446744069414584321) == 8796482344486648840);
    assert(pow_mod(7, 46912496107520, 18446744069414584321) == (8796482344486648840nat * 8796482344486648840nat) % 18446744069414584321nat);
    assert(pow_mod(7, 46912496107520, 18446744069414584321) == 3596945015050375886);
    assert(pow_mod(7, 93824992215040, 18446744069414584321) == (3596945015050375886nat * 3596945015050375886nat) % 18446744069414584321nat);
    assert(pow_mod(7, 93824992215040, 18446744069414584321) == 4201997653601256896);
    assert(pow_mod(7, 187649984430080, 18446744069414584321) == (4201997653601256896nat * 4201997653601256896nat) % 18446744069414584321nat);
    assert(pow_mod(7, 187649984430080, 18446744069414584321) == 6905479200839918232);
    assert(pow_mod(7, 375299968860160, 18446744069414584321) == (6905479200839918232nat * 6905479200839918232nat) % 18446744069414584321nat);
    assert(pow_mod(7, 375299968860160, 18446744069414584321) == 1725491680989254570);
    assert(pow_mod(7, 750599937720320, 18446744069414584321) == (1725491680989254570nat * 1725491680989254570nat) % 18446744069414584321nat);
    assert(pow_mod(7, 750599937720320, 18446744069414584321) == 12370230134295797906);
    assert(pow_mod(7, 1501199875440640, 18446744069414584321) == (12370230134295797906nat * 12370230134295797906nat) % 18446744069414584321nat);
    assert(pow_mod(7, 1501199875440640, 18446744069414584321) == 3734230229149707555);
    assert(pow_mod(7, 3002399750881280, 18446744069414584321) == (3734230229149707555nat * 3734230229149707555nat) % 18446744069414584321nat);
    assert(pow_mod(7, 3002399750881280, 18446744069414584321) == 16496341184493220914);
    assert(pow_mod(7, 6004799501762560, 18446744069414584321) == (16496341184493220914nat * 16496341184493220914nat) % 18446744069414584321nat);
    assert(pow_mod(7, 6004799501762560, 18446744069414584321) == 15331777707844533717);
    assert(pow_mod(7, 12009599003525120, 18446744069414584321) == (15331777707844533717nat * 15331777707844533717nat) % 18446744069414584321nat);
    assert(pow_mod(7, 12009599003525120, 18446744069414584321) == 11895029263313522992);
    assert(pow_mod(7, 24019198007050240, 18446744069414584321) == (11895029263313522992nat * 11895029263313522992nat) % 18446744069414584321nat);
    assert(pow_mod(7, 24019198007050240, 18446744069414584321) == 11373273867503537004);
    assert(pow_mod(7, 48038396014100480, 18446744069414584321) == (11373273867503537004nat * 11373273867503537004nat) % 18446744069414584321nat);
    assert(pow_mod(7, 48038396014100480, 18446744069414584321) == 13835058050987180033);
    assert(pow_mod(7, 96076792028200960, 18446744069414584321) == (13835058050987180033nat * 13835058050987180033nat) % 18446744069414584321nat);
    assert(pow_mod(7, 96076792028200960, 18446744069414584321) == 35184372080640);
    assert(pow_mod(7, 192153584056401920, 18446744069414584321) == (35184372080640nat * 35184372080640nat) % 18446744069414584321nat);
    assert(pow_mod(7, 192153584056401920, 18446744069414584321) == 18158513693262872577);
    assert(pow_mod(7, 384307168112803840, 18446744069414584321) == (18158513693262872577nat * 18158513693262872577nat) % 18446744069414584321nat);
    assert(pow_mod(7, 384307168112803840, 18446744069414584321) == 18446744069413535745);
    assert(pow_mod(7, 768614336225607680, 18446744069414584321) == (18446744069413535745nat * 18446744069413535745nat) % 18446744069414584321nat);
    assert(pow_mod(7, 768614336225607680, 18446744069414584321) == 1099511627776);
    assert(pow_mod(7, 1537228672451215360, 18446744069414584321) == (1099511627776nat * 1099511627776nat) % 18446744069414584321nat);
    assert(pow_mod(7, 1537228672451215360, 18446744069414584321) == 281474976645120);
    assert(pow_mod(7, 3074457344902430720, 18446744069414584321) == (281474976645120nat * 281474976645120nat) % 18446744069414584321nat);
    assert(pow_mod(7, 3074457344902430720, 18446744069414584321) == 18446744065119617026);
    assert(pow_mod(7, 6148914689804861440, 18446744069414584321) == (18446744065119617026nat * 18446744065119617026nat) % 18446744069414584321nat);
    assert(pow_mod(7, 6148914689804861440, 18446744069414584321) == 18446744065119617025);
}

/// 7^((q-1)/5) modulo q, which is not 1.
pub proof fn lemma_pow_seven_over_5()
    ensures
        pow_mod(7, 3689348813882916864, 18446744069414584321) == 1373043270956696022,
{
    assert(pow_mod(7, 0, 18446744069414584321) == 1);
    assert(pow_mod(7, 1, 18446744069414584321) == (7nat * 1nat) % 18446744069414584321nat);
    assert(pow_mod(7, 1, 18446744069414584321) == 7);
    assert(pow_mod(7, 2, 18446744069414584321) == (7nat * 7nat) % 18446744069414584321nat);
    assert(pow_mod(7, 2, 18446744069414584321) == 49);
    assert(pow_mod(7, 3, 18446744069414584321) == (7nat * 49nat) % 18446744069414584321nat);
    assert(pow_mod(7, 3, 18446744069414584321) == 343);
    assert(pow_mod(7, 6, 18446744069414584321) == (343nat * 343nat) % 18446744069414584321nat);
    assert(pow_mod(7, 6, 18446744069414584321) == 117649);
    assert(pow_mod(7, 12, 18446744069414584321) == (117649nat * 117649nat) % 18446744069414584321nat);
    assert(pow_mod(7, 12, 18446744069414584321) == 13841287201);
    assert(pow_mod(7, 24, 18446744069414584321) == (13841287201nat * 13841287201nat) % 18446744069414584321nat);
    assert(pow_mod(7, 24, 18446744069414584321) == 7113790686420571191);
    assert(pow_mod(7, 25, 18446744069414584321) == (7nat * 7113790686420571191nat) % 18446744069414584321nat);
    assert(pow_mod(7, 25, 18446744069414584321) == 12903046666114829695);
    assert(pow_mod(7, 50, 18446744069414584321) == (12903046666114829695nat * 12903046666114829695nat) % 18446744069414584321nat);
    assert(pow_mod(7, 50, 18446744069414584321) == 9508792519651578870);
    assert(pow_mod(7, 51, 18446744069414584321) == (7nat * 9508792519651578870nat) % 18446744069414584321nat);
    assert(pow_mod(7, 51, 18446744069414584321) == 11221315429317299127);
    assert(pow_mod(7, 102, 18446744069414584321) == (11221315429317299127nat * 11221315429317299127nat) % 18446744069414584321nat);
    assert(pow_mod(7, 102, 18446744069414584321) == 3745031562215636174);
    assert(pow_mod(7, 204, 18446744069414584321) == (3745031562215636174nat * 3745031562215636174nat) % 18446744069414584321nat);
    assert(pow_mod(7, 204, 18446744069414584321) == 14721374862152863140);
    assert(pow_mod(7, 408, 18446744069414584321) == (14721374862152863140nat * 14721374862152863140nat) % 18446744069414584321nat);
    assert(pow_mod(7, 408, 18446744069414584321) == 8580336748508171574);
    assert(pow_mod(7, 409, 18446744069414584321) == (7nat * 8580336748508171574nat) % 18446744069414584321nat);
    assert(pow_mod(7, 409, 18446744069414584321) == 4722125031313448055);
    assert(pow_mod(7, 818, 18446744069414584321) == (4722125031313448055nat * 4722125031313448055nat) % 18446744069414584321nat);
    assert(pow_mod(7, 818, 18446744069414584321) == 1883594833244407474);
    assert(pow_mod(7, 819, 18446744069414584321) == (7nat * 1883594833244407474nat) % 18446744069414584321nat);
    assert(pow_mod(7, 819, 18446744069414584321) == 13185163832710852318);
    assert(pow_mod(7, 1638, 18446744069414584321) == (13185163832710852318nat * 13185163832710852318nat) % 18446744069414584321nat);
    assert(pow_mod(7, 1638, 18446744069414584321) == 2814030611640221029);
    assert(pow_mod(7, 3276, 18446744069414584321) == (2814030611640221029nat * 2814030611640221029nat) % 18446744069414584321nat);
    assert(pow_mod(7, 3276, 18446744069414584321) == 15305242945550478579);
    assert(pow_mod(7, 6552, 18446744069414584321) == (15305242945550478579nat * 15305242945550478579nat) % 18446744069414584321nat);
    assert(pow_mod(7, 6552, 18446744069414584321) == 16390917471927504135);
    assert(pow_mod(7, 6553, 18446744069414584321) == (7nat * 16390917471927504135nat) % 18446744069414584321nat);
    assert(pow_mod(7, 6553, 18446744069414584321) == 4055957887005023019);
    assert(pow_mod(7, 13106, 18446744069414584321) == (4055957887005023019nat * 4055957887005023019nat) % 18446744069414584321nat);
    assert(pow_mod(7, 13106, 18446744069414584321) == 2270837492942628639);
    assert(pow_mod(7, 13107, 18446744069414584321) == (7nat * 2270837492942628639nat) % 18446744069414584321nat);
    assert(pow_mod(7, 13107, 18446744069414584321) == 15895862450598400473);
    assert(pow_mod(7, 26214, 18446744069414584321) == (15895862450598400473nat * 15895862450598400473nat) % 18446744069414584321nat);
    assert(pow_mod(7, 26214, 18446744069414584321) == 15907429390595540903);
    assert(pow_mod(7, 52428, 18446744069414584321) == (15907429390595540903nat * 15907429390595540903nat) % 18446744069414584321nat);
    assert(pow_mod(7, 52428, 18446744069414584321) == 9571849187322067488);
    assert(pow_mod(7, 104856, 18446744069414584321) == (9571849187322067488nat * 9571849187322067488nat) % 18446744069414584321nat);
    assert(pow_mod(7, 104856, 18446744069414584321) == 4541341506473167947);
    assert(pow_mod(7, 104857, 18446744069414584321) == (7nat * 4541341506473167947nat) % 18446744069414584321nat);
    assert(pow_mod(7, 104857, 18446744069414584321) == 13342646475897591308);
    assert(pow_mod(7, 209714, 18446744069414584321) == (13342646475897591308nat * 13342646475897591308nat) % 18446744069414584321nat);
    assert(pow_mod(7, 209714, 18446744069414584321) == 6980271831054868468);
    assert(pow_mod(7, 209715, 18446744069414584321) == (7nat * 6980271831054868468nat) % 18446744069414584321nat);
    assert(pow_mod(7, 209715, 18446744069414584321) == 11968414678554910634);
    assert(pow_mod(7, 419430, 18446744069414584321) == (11968414678554910634nat * 11968414678554910634nat) % 18446744069414584321nat);
    assert(pow_mod(7, 419430, 18446744069414584321) == 9815939365277946145);
    assert(pow_mod(7, 838860, 18446744069414584321) == (9815939365277946145nat * 9815939365277946145nat) % 18446744069414584321nat);
    assert(pow_mod(7, 838860, 18446744069414584321) == 15620185229717233314);
    assert(pow_mod(7, 1677720, 18446744069414584321) == (15620185229717233314nat * 15620185229717233314nat) % 18446744069414584321nat);
    assert(pow_mod(7, 1677720, 18446744069414584321) == 10616950601403447294);
    assert(pow_mod(7, 1677721, 18446744069414584321) == (7nat * 10616950601403447294nat) % 18446744069414584321nat);
    assert(pow_mod(7, 1677721, 18446744069414584321) == 531677932165793774);
    assert(pow_mod(7, 3355442, 18446744069414584321) == (531677932165793774nat * 531677932165793774nat) % 18446744069414584321nat);
    assert(pow_mod(7, 3355442, 18446744069414584321) == 16662824208101097746);
    assert(pow_mod(7, 3355443, 18446744069414584321) == (7nat * 16662824208101097746nat) % 18446744069414584321nat);
    assert(pow_mod(7, 3355443, 18446744069414584321) == 5959305040220178296);
    assert(pow_mod(7, 6710886, 18446744069414584321) == (5959305040220178296nat * 5959305040220178296nat) % 18446744069414584321nat);
    assert(pow_mod(7, 6710886, 18446744069414584321) == 6422988881738978288);
    assert(pow_mod(7, 13421772, 18446744069414584321) == (6422988881738978288nat * 6422988881738978288nat) % 18446744069414584321nat);
    assert(pow_mod(7, 13421772, 18446744069414584321) == 6417963550187649822);
    assert(pow_mod(7, 26843544, 18446744069414584321) == (6417963550187649822nat * 6417963550187649822nat) % 18446744069414584321nat);
    assert(pow_mod(7, 26843544, 18446744069414584321) == 14252887398442191467);
    assert(pow_mod(7, 26843545, 18446744069414584321) == (7nat * 14252887398442191467nat) % 18446744069414584321nat);
    assert(pow_mod(7, 26843545, 18446744069414584321) == 7536491442022418664);
    assert(pow_mod(7, 53687090, 18446744069414584321) == (7536491442022418664nat * 7536491442022418664nat) % 18446744069414584321nat);
    assert(pow_mod(7, 53687090, 18446744069414584321) == 11420510904403074233);
    assert(pow_mod(7, 53687091, 18446744069414584321) == (7nat * 11420510904403074233nat) % 18446744069414584321nat);
    assert(pow_mod(7, 53687091, 18446744069414584321) == 6156600053163182347);
    assert(pow_mod(7, 107374182, 18446744069414584321) == (6156600053163182347nat * 6156600053163182347nat) % 18446744069414584321nat);
    assert(pow_mod(7, 107374182, 18446744069414584321) == 774671493430776042);
    assert(pow_mod(7, 214748364, 18446744069414584321) == (774671493430776042nat * 774671493430776042nat) % 18446744069414584321nat);
    assert(pow_mod(7, 214748364, 18446744069414584321) == 5396215078887381364);
    assert(pow_mod(7, 429496728, 18446744069414584321) == (5396215078887381364nat * 5396215078887381364nat) % 18446744069414584321nat);
    assert(pow_mod(7, 429496728, 18446744069414584321) == 12728759107003177926);
    assert(pow_mod(7, 429496729, 18446744069414584321) == (7nat * 12728759107003177926nat) % 18446744069414584321nat);
    assert(pow_mod(7, 429496729, 18446744069414584321) == 15314337471363908198);
    assert(pow_mod(7, 858993458, 18446744069414584321) == (15314337471363908198nat * 15314337471363908198nat) % 18446744069414584321nat);
    assert(pow_mod(7, 858993458, 18446744069414584321) == 5793645042898913638);
    assert(pow_mod(7, 858993459, 18446744069414584321) == (7nat * 5793645042898913638nat) % 18446744069414584321nat);
    assert(pow_mod(7, 858993459, 18446744069414584321) == 3662027161463226824);
    assert(pow_mod(7, 1717986918, 18446744069414584321) == (3662027161463226824nat * 3662027161463226824nat) % 18446744069414584321nat);
    assert(pow_mod(7, 1717986918, 18446744069414584321) == 11820361339200135398);
    assert(pow_mod(7, 3435973836, 18446744069414584321) == (11820361339200135398nat * 11820361339200135398nat) % 18446744069414584321nat);
    assert(pow_mod(7, 3435973836, 18446744069414584321) == 10563623981652513853);
    assert(pow_mod(7, 6871947672, 18446744069414584321) == (10563623981652513853nat * 10563623981652513853nat) % 18446744069414584321nat);
    assert(pow_mod(7, 6871947672, 18446744069414584321) == 11556889392494533434);
    assert(pow_mod(7, 13743895344, 18446744069414584321) == (11556889392494533434nat * 11556889392494533434nat) % 18446744069414584321nat);
    assert(pow_mod(7, 13743895344, 18446744069414584321) == 5123117391711505057);
    assert(pow_mod(7, 27487790688, 18446744069414584321) == (5123117391711505057nat * 5123117391711505057nat) % 18446744069414584321nat);
    assert(pow_mod(7, 27487790688, 18446744069414584321) == 18163573378392062736);
    assert(pow_mod(7, 54975581376, 18446744069414584321) == (18163573378392062736nat * 18163573378392062736nat) % 18446744069414584321nat);
    assert(pow_mod(7, 54975581376, 18446744069414584321) == 17372647198866510400);
    assert(pow_mod(7, 109951162752, 18446744069414584321) == (17372647198866510400nat * 17372647198866510400nat) % 18446744069414584321nat);
    assert(pow_mod(7, 109951162752, 18446744069414584321) == 1220884775256242639);
    assert(pow_mod(7, 219902325504, 18446744069414584321) == (1220884775256242639nat * 1220884775256242639nat) % 18446744069414584321nat);
    assert(pow_mod(7, 219902325504, 18446744069414584321) == 1436240010618898855);
    assert(pow_mod(7, 439804651008, 18446744069414584321) == (1436240010618898855nat * 1436240010618898855nat) % 18446744069414584321nat);
    assert(pow_mod(7, 439804651008, 18446744069414584321) == 968157462317130011);
    assert(pow_mod(7, 879609302016, 18446744069414584321) == (968157462317130011nat * 968157462317130011nat) % 18446744069414584321nat);
    assert(pow_mod(7, 879609302016, 18446744069414584321) == 993397133647309316);
    assert(pow_mod(7, 1759218604032, 18446744069414584321) == (993397133647309316nat * 993397133647309316nat) % 18446744069414584321nat);
    assert(pow_mod(7, 1759218604032, 18446744069414584321) == 14359758886168776598);
    assert(pow_mod(7, 3518437208064, 18446744069414584321) == (14359758886168776598nat * 14359758886168776598nat) % 18446744069414584321nat);
    assert(pow_mod(7, 3518437208064, 18446744069414584321) == 11469785989846425790);
    assert(pow_mod(7, 7036874416128, 18446744069414584321) == (11469785989846425790nat * 11469785989846425790nat) % 18446744069414584321nat);
    assert(pow_mod(7, 7036874416128, 18446744069414584321) == 7202858824453247222);
    assert(pow_mod(7, 14073748832256, 18446744069414584321) == (7202858824453247222nat * 7202858824453247222nat) % 18446744069414584321nat);
    assert(pow_mod(7, 14073748832256, 18446744069414584321) == 8980223327998268287);
    assert(pow_mod(7, 28147497664512, 18446744069414584321) == (8980223327998268287nat * 8980223327998268287nat) % 18446744069414584321nat);
    assert(pow_mod(7, 28147497664512, 18446744069414584321) == 2898061628613144896);
    assert(pow_mod(7, 56294995329024, 18446744069414584321) == (2898061628613144896nat * 2898061628613144896nat) % 18446744069414584321nat);
    assert(pow_mod(7, 56294995329024, 18446744069414584321) == 5148563552100513047);
    assert(pow_mod(7, 112589990658048, 18446744069414584321) == (5148563552100513047nat * 5148563552100513047nat) % 18446744069414584321nat);
    assert(pow_mod(7, 112589990658048, 18446744069414584321) == 10405746850183322052);
    assert(pow_mod(7, 225179981316096, 18446744069414584321) == (10405746850183322052nat * 10405746850183322052nat) % 18446744069414584321nat);
    assert(pow_mod(7, 225179981316096, 18446744069414584321) == 8376609452955824527);
    assert(pow_mod(7, 450359962632192, 18446744069414584321) == (8376609452955824527nat * 8376609452955824527nat) % 18446744069414584321nat);
    assert(pow_mod(7, 450359962632192, 18446744069414584321) == 17819501121686609562);
    assert(pow_mod(7, 900719925264384, 18446744069414584321) == (17819501121686609562nat * 17819501121686609562nat) % 18446744069414584321nat);
    assert(pow_mod(7, 900719925264384, 18446744069414584321) == 12701195747762323519);
    assert(pow_mod(7, 1801439850528768, 18446744069414584321) == (12701195747762323519nat * 12701195747762323519nat) % 18446744069414584321nat);
    assert(pow_mod(7, 1801439850528768, 18446744069414584321) == 16093963071722629223);
    assert(pow_mod(7, 3602879701057536, 18446744069414584321) == (16093963071722629223nat * 16093963071722629223nat) % 18446744069414584321nat);
    assert(pow_mod(7, 3602879701057536, 18446744069414584321) == 18098504255140688579);
    assert(pow_mod(7, 7205759402115072, 18446744069414584321) == (18098504255140688579nat * 18098504255140688579nat) % 18446744069414584321nat);
    assert(pow_mod(7, 7205759402115072, 18446744069414584321) == 3705545293506004500);
    assert(pow_mod(7, 14411518804230144, 18446744069414584321) == (3705545293506004500nat * 3705545293506004500nat) % 18446744069414584321nat);
    assert(pow_mod(7, 14411518804230144, 18446744069414584321) == 12143967077249500439);
    assert(pow_mod(7, 28823037608460288, 18446744069414584321) == (12143967077249500439nat * 12143967077249500439nat) % 18446744069414584321nat);
    assert(pow_mod(7, 28823037608460288, 18446744069414584321) == 8898934198923663040);
    assert(pow_mod(7, 57646075216920576, 18446744069414584321) == (8898934198923663040nat * 8898934198923663040nat) % 18446744069414584321nat);
    assert(pow_mod(7, 57646075216920576, 18446744069414584321) == 14017153681711143730);
    assert(pow_mod(7, 115292150433841152, 18446744069414584321) == (14017153681711143730nat * 14017153681711143730nat) % 18446744069414584321nat);
    assert(pow_mod(7, 115292150433841152, 18446744069414584321) == 13369903252519103517);
    assert(pow_mod(7, 230584300867682304, 18446744069414584321) == (13369903252519103517nat * 13369903252519103517nat) % 18446744069414584321nat);
    assert(pow_mod(7, 230584300867682304, 18446744069414584321) == 2271703332821311793);
    assert(pow_mod(7, 461168601735364608, 18446744069414584321) == (2271703332821311793nat * 2271703332821311793nat) % 18446744069414584321nat);
    assert(pow_mod(7, 461168601735364608, 18446744069414584321) == 14026992134716723275);
    assert(pow_mod(7, 922337203470729216, 18446744069414584321) == (14026992134716723275nat * 14026992134716723275nat) % 18446744069414584321nat);
    assert(pow_mod(7, 922337203470729216, 18446744069414584321) == 2281812832982421726);
    assert(pow_mod(7, 1844674406941458432, 18446744069414584321) == (2281812832982421726nat * 2281812832982421726nat) % 18446744069414584321nat);
    assert(pow_mod(7, 1844674406941458432, 18446744069414584321) == 2625919085333925275);
    assert(pow_mod(7, 3689348813882916864, 18446744069414584321) == (2625919085333925275nat * 2625919085333925275nat) % 18446744069414584321nat);
    assert(pow_mod(7, 3689348813882916864, 18446744069414584321) == 1373043270956696022);
}

/// 7^((q-1)/17) modulo q, which is not 1.
pub proof fn lemma_pow_seven_over_17()
    ensures
        pow_mod(7, 1085102592318504960, 18446744069414584321) == 16301593560560007290,
{
    assert(pow_mod(7, 0, 18446744069414584321) == 1);
    assert(pow_mod(7, 1, 18446744069414584321) == (7nat * 1nat) % 18446744069414584321nat);
    assert(pow_mod(7, 1, 18446744069414584321) == 7);
    assert(pow_mod(7, 2, 18446744069414584321) == (7nat * 7nat) % 18446744069414584321nat);
    assert(pow_mod(7, 2, 18446744069414584321) == 49);
    assert(pow_mod(7, 3, 18446744069414584321) == (7nat * 49nat) % 18446744069414584321nat);
    assert(pow_mod(7, 3, 18446744069414584321) == 343);
    assert(pow_mod(7, 6, 18446744069414584321) == (343nat * 343nat) % 18446744069414584321nat);
    assert(pow_mod(7, 6, 18446744069414584321) == 117649);
    assert(pow_mod(7, 7, 18446744069414584321) == (7nat * 117649nat) % 18446744069414584321nat);
    assert(pow_mod(7, 7, 18446744069414584321) == 823543);
    assert(pow_mod(7, 14, 18446744069414584321) == (823543nat * 823543nat) % 18446744069414584321nat);
    assert(pow_mod(7, 14, 18446744069414584321) == 678223072849);
    assert(pow_mod(7, 15, 18446744069414584321) == (7nat * 678223072849nat) % 18446744069414584321nat);
    assert(pow_mod(7, 15, 18446744069414584321) == 4747561509943);
    assert(pow_mod(7, 30, 18446744069414584321) == (4747561509943nat * 4747561509943nat) % 18446744069414584321nat);
    assert(pow_mod(7, 30, 18446744069414584321) == 1582037354089406189);
    assert(pow_mod(7, 60, 18446744069414584321) == (1582037354089406189nat * 1582037354089406189nat) % 18446744069414584321nat);
    assert(pow_mod(7, 60, 18446744069414584321) == 6704211459967285318);
    assert(pow_mod(7, 120, 18446744069414584321) == (6704211459967285318nat * 6704211459967285318nat) % 18446744069414584321nat);
    assert(pow_mod(7, 120, 18446744069414584321) == 12536486945555764682);
    assert(pow_mod(7, 240, 18446744069414584321) == (12536486945555764682nat * 12536486945555764682nat) % 18446744069414584321nat);
    assert(pow_mod(7, 240, 18446744069414584321) == 8329639379454877396);
    assert(pow_mod(7, 480, 18446744069414584321) == (8329639379454877396nat * 8329639379454877396nat) % 18446744069414584321nat);
    assert(pow_mod(7, 480, 18446744069414584321) == 9634757967695347772);
    assert(pow_mod(7, 481, 18446744069414584321) == (7nat * 9634757967695347772nat) % 18446744069414584321nat);
    assert(pow_mod(7, 481, 18446744069414584321) == 12103073565623681441);
    assert(pow_mod(7, 962, 18446744069414584321) == (12103073565623681441nat * 12103073565623681441nat) % 18446744069414584321nat);
    assert(pow_mod(7, 962, 18446744069414584321) == 7391097021356298215);
    assert(pow_mod(7, 963, 18446744069414584321) == (7nat * 7391097021356298215nat) % 18446744069414584321nat);
    assert(pow_mod(7, 963, 18446744069414584321) == 14844191010664918863);
    assert(pow_mod(7, 1926, 18446744069414584321) == (14844191010664918863nat * 14844191010664918863nat) % 18446744069414584321nat);
    assert(pow_mod(7, 1926, 18446744069414584321) == 12415576456582165859);
    assert(pow_mod(7, 1927, 18446744069414584321) == (7nat * 12415576456582165859nat) % 18446744069414584321nat);
    assert(pow_mod(7, 1927, 18446744069414584321) == 13122058918416823729);
    assert(pow_mod(7, 3854, 18446744069414584321) == (13122058918416823729nat * 13122058918416823729nat) % 18446744069414584321nat);
    assert(pow_mod(7, 3854, 18446744069414584321) == 7897896591338819743);
    assert(pow_mod(7, 3855, 18446744069414584321) == (7nat * 7897896591338819743nat) % 18446744069414584321nat);
    assert(pow_mod(7, 3855, 18446744069414584321) == 18391788000542569559);
    assert(pow_mod(7, 7710, 18446744069414584321) == (18391788000542569559nat * 18391788000542569559nat) % 18446744069414584321nat);
    assert(pow_mod(7, 7710, 18446744069414584321) == 5815952681263863745);
    assert(pow_mod(7, 15420, 18446744069414584321) == (5815952681263863745nat * 5815952681263863745nat) % 18446744069414584321nat);
    assert(pow_mod(7, 15420, 18446744069414584321) == 15534263258852221519);
    assert(pow_mod(7, 30840, 18446744069414584321) == (15534263258852221519nat * 15534263258852221519nat) % 18446744069414584321nat);
    assert(pow_mod(7, 30840, 18446744069414584321) == 9621442331152125603);
    assert(pow_mod(7, 61680, 18446744069414584321) == (9621442331152125603nat * 9621442331152125603nat) % 18446744069414584321nat);
    assert(pow_mod(7, 61680, 18446744069414584321) == 13847347385863248794);
    assert(pow_mod(7, 123360, 18446744069414584321) == (13847347385863248794nat * 13847347385863248794nat) % 18446744069414584321nat);
    assert(pow_mod(7, 123360, 18446744069414584321) == 17205675455212639060);
    assert(pow_mod(7, 123361, 18446744069414584321) == (7nat * 17205675455212639060nat) % 18446744069414584321nat);
    assert(pow_mod(7, 123361, 18446744069414584321) == 9759263770000967494);
    assert(pow_mod(7, 246722, 18446744069414584321) == (9759263770000967494nat * 9759263770000967494nat) % 18446744069414584321nat);
    assert(pow_mod(7, 246722, 18446744069414584321) == 14407346328610363633);
    assert(pow_mod(7, 246723, 18446744069414584321) == (7nat * 14407346328610363633nat) % 18446744069414584321nat);
    assert(pow_mod(7, 246723, 18446744069414584321) == 8617703953199623826);
    assert(pow_mod(7, 493446, 18446744069414584321) == (8617703953199623826nat * 8617703953199623826nat) % 18446744069414584321nat);
    assert(pow_mod(7, 493446, 18446744069414584321) == 18431779654498809450);
    assert(pow_mod(7, 493447, 18446744069414584321) == (7nat * 18431779654498809450nat) % 18446744069414584321nat);
    assert(pow_mod(7, 493447, 18446744069414584321) == 18341993165004160224);
    assert(pow_mod(7, 986894, 18446744069414584321) == (18341993165004160224nat * 18341993165004160224nat) % 18446744069414584321nat);
    assert(pow_mod(7, 986894, 18446744069414584321) == 18143715114932847758);
    assert(pow_mod(7, 986895, 18446744069414584321) == (7nat * 18143715114932847758nat) % 18446744069414584321nat);
    assert(pow_mod(7, 986895, 18446744069414584321) == 16325541388042428380);
    assert(pow_mod(7, 1973790, 18446744069414584321) == (16325541388042428380nat * 16325541388042428380nat) % 18446744069414584321nat);
    assert(pow_mod(7, 1973790, 18446744069414584321) == 87681681590930466);
    assert(pow_mod(7, 3947580, 18446744069414584321) == (87681681590930466nat * 87681681590930466nat) % 18446744069414584321nat);
    assert(pow_mod(7, 3947580, 18446744069414584321) == 1247600097974775228);
    assert(pow_mod(7, 7895160, 18446744069414584321) == (1247600097974775228nat * 1247600097974775228nat) % 18446744069414584321nat);
    assert(pow_mod(7, 7895160, 18446744069414584321) == 263672500424845310);
    assert(pow_mod(7, 15790320, 18446744069414584321) == (263672500424845310nat * 263672500424845310nat) % 18446744069414584321nat);
    assert(pow_mod(7, 15790320, 18446744069414584321) == 14075661776324224620);
    assert(pow_mod(7, 31580640, 18446744069414584321) == (14075661776324224620nat * 14075661776324224620nat) % 18446744069414584321nat);
    assert(pow_mod(7, 31580640, 18446744069414584321) == 1097754007496414739);
    assert(pow_mod(7, 31580641, 18446744069414584321) == (7nat * 1097754007496414739nat) % 18446744069414584321nat);
    assert(pow_mod(7, 31580641, 18446744069414584321) == 7684278052474903173);
    assert(pow_mod(7, 63161282, 18446744069414584321) == (7684278052474903173nat * 7684278052474903173nat) % 18446744069414584321nat);
    assert(pow_mod(7, 63161282, 18446744069414584321) == 16912746553351552869);
    assert(pow_mod(7, 63161283, 18446744069414584321) == (7nat * 16912746553351552869nat) % 18446744069414584321nat);
    assert(pow_mod(7, 63161283, 18446744069414584321) == 7708761456973364157);
    assert(pow_mod(7, 126322566, 18446744069414584321) == (7708761456973364157nat * 7708761456973364157nat) % 18446744069414584321nat);
    assert(pow_mod(7, 126322566, 18446744069414584321) == 7915739019813757092);
    assert(pow_mod(7, 126322567, 18446744069414584321) == (7nat * 7915739019813757092nat) % 18446744069414584321nat);
    assert(pow_mod(7, 126322567, 18446744069414584321) == 69940930452546681);
    assert(pow_mod(7, 252645134, 18446744069414584321) == (69940930452546681nat * 69940930452546681nat) % 18446744069414584321nat);
    assert(pow_mod(7, 252645134, 18446744069414584321) == 10242565372168891076);
    assert(pow_mod(7, 252645135, 18446744069414584321) == (7nat * 10242565372168891076nat) % 18446744069414584321nat);
    assert(pow_mod(7, 252645135, 18446744069414584321) == 16357725396938484569);
    assert(pow_mod(7, 505290270, 18446744069414584321) == (16357725396938484569nat * 16357725396938484569nat) % 18446744069414584321nat);
    assert(pow_mod(7, 505290270, 18446744069414584321) == 9635924811972810304);
    assert(pow_mod(7, 1010580540, 18446744069414584321) == (9635924811972810304nat * 9635924811972810304nat) % 18446744069414584321nat);
    assert(pow_mod(7, 1010580540, 18446744069414584321) == 17792655913659759447);
    assert(pow_mod(7, 2021161080, 18446744069414584321) == (17792655913659759447nat * 17792655913659759447nat) % 18446744069414584321nat);
    assert(pow_mod(7, 2021161080, 18446744069414584321) == 757864979510442991);
    assert(pow_mod(7, 4042322160, 18446744069414584321) == (757864979510442991nat * 757864979510442991nat) % 18446744069414584321nat);
    assert(pow_mod(7, 4042322160, 18446744069414584321) == 5359388630104522475);
    assert(pow_mod(7, 8084644320, 18446744069414584321) == (5359388630104522475nat * 5359388630104522475nat) % 18446744069414584321nat);
    assert(pow_mod(7, 8084644320, 18446744069414584321) == 16844089689671372755);
    assert(pow_mod(7, 16169288640, 18446744069414584321) == (16844089689671372755nat * 16844089689671372755nat) % 18446744069414584321nat);
    assert(pow_mod(7, 16169288640, 18446744069414584321) == 3416859319420511225);
    assert(pow_mod(7, 32338577280, 18446744069414584321) == (3416859319420511225nat * 3416859319420511225nat) % 18446744069414584321nat);
    assert(pow_mod(7, 32338577280, 18446744069414584321) == 13225002848613916298);
    assert(pow_mod(7, 64677154560, 18446744069414584321) == (13225002848613916298nat * 13225002848613916298nat) % 18446744069414584321nat);
    assert(pow_mod(7, 64677154560, 18446744069414584321) == 3046446182183887513);
    assert(pow_mod(7, 129354309120, 18446744069414584321) == (3046446182183887513nat * 3046446182183887513nat) % 18446744069414584321nat);
    assert(pow_mod(7, 129354309120, 18446744069414584321) == 8471950025145571556);
    assert(pow_mod(7, 258708618240, 18446744069414584321) == (8471950025145571556nat * 8471950025145571556nat) % 18446744069414584321nat);
    assert(pow_mod(7, 258708618240, 18446744069414584321) == 14240312891968862088);
    assert(pow_mod(7, 517417236480, 18446744069414584321) == (14240312891968862088nat * 14240312891968862088nat) % 18446744069414584321nat);
    assert(pow_mod(7, 517417236480, 18446744069414584321) == 14284159170854690980);
    assert(pow_mod(7, 1034834472960, 18446744069414584321) == (14284159170854690980nat * 14284159170854690980nat) % 18446744069414584321nat);
    assert(pow_mod(7, 1034834472960, 18446744069414584321) == 2140736107784648890);
    assert(pow_mod(7, 2069668945920, 18446744069414584321) == (2140736107784648890nat * 2140736107784648890nat) % 18446744069414584321nat);
    assert(pow_mod(7, 2069668945920, 18446744069414584321) == 720221585272617730);
    assert(pow_mod(7, 4139337891840, 18446744069414584321) == (720221585272617730nat * 720221585272617730nat) % 18446744069414584321nat);
    assert(pow_mod(7, 4139337891840, 18446744069414584321) == 14933742682021830494);
    assert(pow_mod(7, 8278675783680, 18446744069414584321) == (14933742682021830494nat * 14933742682021830494nat) % 18446744069414584321nat);
    assert(pow_mod(7, 8278675783680, 18446744069414584321) == 16866753830962059859);
    assert(pow_mod(7, 16557351567360, 18446744069414584321) == (16866753830962059859nat * 16866753830962059859nat) % 18446744069414584321nat);
    assert(pow_mod(7, 16557351567360, 18446744069414584321) == 4185523320037657098);
    assert(pow_mod(7, 33114703134720, 18446744069414584321) == (4185523320037657098nat * 4185523320037657098nat) % 18446744069414584321nat);
    assert(pow_mod(7, 33114703134720, 18446744069414584321) == 17086191566025186696);
    assert(pow_mod(7, 66229406269440, 18446744069414584321) == (17086191566025186696nat * 17086191566025186696nat) % 18446744069414584321nat);
    assert(pow_mod(7, 66229406269440, 18446744069414584321) == 1098680059505421076);
    assert(pow_mod(7, 132458812538880, 18446744069414584321) == (1098680059505421076nat * 1098680059505421076nat) % 18446744069414584321nat);
    assert(pow_mod(7, 132458812538880, 18446744069414584321) == 16940429312545755789);
    assert(pow_mod(7, 264917625077760, 18446744069414584321) == (16940429312545755789nat * 16940429312545755789nat) % 18446744069414584321nat);
    assert(pow_mod(7, 264917625077760, 18446744069414584321) == 16945016486212160087);
    assert(pow_mod(7, 529835250155520, 18446744069414584321) == (16945016486212160087nat * 16945016486212160087nat) % 18446744069414584321nat);
    assert(pow_mod(7, 529835250155520, 18446744069414584321) == 18171560771947831624);
    assert(pow_mod(7, 1059670500311040, 18446744069414584321) == (18171560771947831624nat * 18171560771947831624nat) % 18446744069414584321nat);
    assert(pow_mod(7, 1059670500311040, 18446744069414584321) == 14884189242943664099);
    assert(pow_mod(7, 2119341000622080, 18446744069414584321) == (14884189242943664099nat * 14884189242943664099nat) % 18446744069414584321nat);
    assert(pow_mod(7, 2119341000622080, 18446744069414584321) == 7182983899389742773);
    assert(pow_mod(7, 4238682001244160, 18446744069414584321) == (7182983899389742773nat * 7182983899389742773nat) % 18446744069414584321nat);
    assert(pow_mod(7, 4238682001244160, 18446744069414584321) == 7794706010606133772);
    assert(pow_mod(7, 8477364002488320, 18446744069414584321) == (7794706010606133772nat * 7794706010606133772nat) % 18446744069414584321nat);
    assert(pow_mod(7, 8477364002488320, 18446744069414584321) == 5944394147430185930);
    assert(pow_mod(7, 16954728004976640, 18446744069414584321) == (5944394147430185930nat * 5944394147430185930nat) % 18446744069414584321nat);
    assert(pow_mod(7, 16954728004976640, 18446744069414584321) == 11638363544692747458);
    assert(pow_mod(7, 33909456009953280, 18446744069414584321) == (11638363544692747458nat * 11638363544692747458nat) % 18446744069414584321nat);
    assert(pow_mod(7, 33909456009953280, 18446744069414584321) == 8942909788274506390);
    assert(pow_mod(7, 67818912019906560, 18446744069414584321) == (8942909788274506390nat * 8942909788274506390nat) % 18446744069414584321nat);
    assert(pow_mod(7, 67818912019906560, 18446744069414584321) == 10254463118692560346);
    assert(pow_mod(7, 135637824039813120, 18446744069414584321) == (10254463118692560346nat * 10254463118692560346nat) % 18446744069414584321nat);
    assert(pow_mod(7, 135637824039813120, 18446744069414584321) == 6509392022269312871);
    assert(pow_mod(7, 271275648079626240, 18446744069414584321) == (6509392022269312871nat * 6509392022269312871nat) % 18446744069414584321nat);
    assert(pow_mod(7, 271275648079626240, 18446744069414584321) == 3060481852759670200);
    assert(pow_mod(7, 542551296159252480, 18446744069414584321) == (3060481852759670200nat * 3060481852759670200nat) % 18446744069414584321nat);
    assert(pow_mod(7, 542551296159252480, 18446744069414584321) == 9492362781570530732);
    assert(pow_mod(7, 1085102592318504960, 18446744069414584321) == (9492362781570530732nat * 9492362781570530732nat) % 18446744069414584321nat);
    assert(pow_mod(7, 1085102592318504960, 18446744069414584321) == 16301593560560007290);
}

/// 7^((q-1)/257) modulo q, which is not 1.
pub proof fn lemma_pow_seven_over_257()
    ensures
        pow_mod(7, 71777214277877760, 18446744069414584321) == 995085315851368103,
{
    assert(pow_mod(7, 0, 18446744069414584321) == 1);
    assert(pow_mod(7, 1, 18446744069414584321) == (7nat * 1nat) % 18446744069414584321nat);
    assert(pow_mod(7, 1, 18446744069414584321) == 7);
    assert(pow_mod(7, 2, 18446744069414584321) == (7nat * 7nat) % 18446744069414584321nat);
    assert(pow_mod(7, 2, 18446744069414584321) == 49);
    assert(pow_mod(7, 3, 18446744069414584321) == (7nat * 49nat) % 18446744069414584321nat);
    assert(pow_mod(7, 3, 18446744069414584321) == 343);
    assert(pow_mod(7, 6, 18446744069414584321) == (343nat * 343nat) % 18446744069414584321nat);
    assert(pow_mod(7, 6, 18446744069414584321) == 117649);
    assert(pow_mod(7, 7, 18446744069414584321) == (7nat * 117649nat) % 18446744069414584321nat);
    assert(pow_mod(7, 7, 18446744069414584321) == 823543);
    assert(pow_mod(7, 14, 18446744069414584321) == (823543nat * 823543nat) % 18446744069414584321nat);
    assert(pow_mod(7, 14, 18446744069414584321) == 678223072849);
    assert(pow_mod(7, 15, 18446744069414584321) == (7nat * 678223072849nat) % 18446744069414584321nat);
    assert(pow_mod(7, 15, 18446744069414584321) == 4747561509943);
    assert(pow_mod(7, 30, 18446744069414584321) == (4747561509943nat * 4747561509943nat) % 18446744069414584321nat);
    assert(pow_mod(7, 30, 18446744069414584321) == 1582037354089406189);
    assert(pow_mod(7, 31, 18446744069414584321) == (7nat * 1582037354089406189nat) % 18446744069414584321nat);
    assert(pow_mod(7, 31, 18446744069414584321) == 11074261478625843323);
    assert(pow_mod(7, 62, 18446744069414584321) == (11074261478625843323nat * 11074261478625843323nat) % 18446744069414584321nat);
    assert(pow_mod(7, 62, 18446744069414584321) == 14911712358349047125);
    assert(pow_mod(7, 63, 18446744069414584321) == (7nat * 14911712358349047125nat) % 18446744069414584321nat);
    assert(pow_mod(7, 63, 18446744069414584321) == 12148266161370408270);
    assert(pow_mod(7, 126, 18446744069414584321) == (12148266161370408270nat * 12148266161370408270nat) % 18446744069414584321nat);
    assert(pow_mod(7, 126, 18446744069414584321) == 14177331716484271384);
    assert(pow_mod(7, 127, 18446744069414584321) == (7nat * 14177331716484271384nat) % 18446744069414584321nat);
    assert(pow_mod(7, 127, 18446744069414584321) == 7007601668316978083);
    assert(pow_mod(7, 254, 18446744069414584321) == (7007601668316978083nat * 7007601668316978083nat) % 18446744069414584321nat);
    assert(pow_mod(7, 254, 18446744069414584321) == 1160753142525841411);
    assert(pow_mod(7, 255, 18446744069414584321) == (7nat * 1160753142525841411nat) % 18446744069414584321nat);
    assert(pow_mod(7, 255, 18446744069414584321) == 8125271997680889877);
    assert(pow_mod(7, 510, 18446744069414584321) == (8125271997680889877nat * 8125271997680889877nat) % 18446744069414584321nat);
    assert(pow_mod(7, 510, 18446744069414584321) == 10915923311382173605);
    assert(pow_mod(7, 1020, 18446744069414584321) == (10915923311382173605nat * 10915923311382173605nat) % 18446744069414584321nat);
    assert(pow_mod(7, 1020, 18446744069414584321) == 8682737361258234340);
    assert(pow_mod(7, 2040, 18446744069414584321) == (8682737361258234340nat * 8682737361258234340nat) % 18446744069414584321nat);
    assert(pow_mod(7, 2040, 18446744069414584321) == 13168992710278412212);
    assert(pow_mod(7, 4080, 18446744069414584321) == (13168992710278412212nat * 13168992710278412212nat) % 18446744069414584321nat);
    assert(pow_mod(7, 4080, 18446744069414584321) == 3615243740316660512);
    assert(pow_mod(7, 8160, 18446744069414584321) == (3615243740316660512nat * 3615243740316660512nat) % 18446744069414584321nat);
    assert(pow_mod(7, 8160, 18446744069414584321) == 9701552052102210316);
    assert(pow_mod(7, 16320, 18446744069414584321) == (9701552052102210316nat * 9701552052102210316nat) % 18446744069414584321nat);
    assert(pow_mod(7, 16320, 18446744069414584321) == 12082995573853045936);
    assert(pow_mod(7, 32640, 18446744069414584321) == (12082995573853045936nat * 12082995573853045936nat) % 18446744069414584321nat);
    assert(pow_mod(7, 32640, 18446744069414584321) == 2592469405483382171);
    assert(pow_mod(7, 65280, 18446744069414584321) == (2592469405483382171nat * 2592469405483382171nat) % 18446744069414584321nat);
    assert(pow_mod(7, 65280, 18446744069414584321) == 8929377406043347353);
    assert(pow_mod(7, 130560, 18446744069414584321) == (8929377406043347353nat * 8929377406043347353nat) % 18446744069414584321nat);
    assert(pow_mod(7, 130560, 18446744069414584321) == 9795840452586307152);
    assert(pow_mod(7, 130561, 18446744069414584321) == (7nat * 9795840452586307152nat) % 18446744069414584321nat);
    assert(pow_mod(7, 130561, 18446744069414584321) == 13230650959860397101);
    assert(pow_mod(7, 261122, 18446744069414584321) == (13230650959860397101nat * 13230650959860397101nat) % 18446744069414584321nat);
    assert(pow_mod(7, 261122, 18446744069414584321) == 13828748494014249279);
    assert(pow_mod(7, 261123, 18446744069414584321) == (7nat * 13828748494014249279nat) % 18446744069414584321nat);
    assert(pow_mod(7, 261123, 18446744069414584321) == 4567519111026823348);
    assert(pow_mod(7, 522246, 18446744069414584321) == (4567519111026823348nat * 4567519111026823348nat) % 18446744069414584321nat);
    assert(pow_mod(7, 522246, 18446744069414584321) == 9911383694283361932);
    assert(pow_mod(7, 522247, 18446744069414584321) == (7nat * 9911383694283361932nat) % 18446744069414584321nat);
    assert(pow_mod(7, 522247, 18446744069414584321) == 14039453651739780561);
    assert(pow_mod(7, 1044494, 18446744069414584321) == (14039453651739780561nat * 14039453651739780561nat) % 18446744069414584321nat);
    assert(pow_mod(7, 1044494, 18446744069414584321) == 6677584045842437523);
    assert(pow_mod(7, 1044495, 18446744069414584321) == (7nat * 6677584045842437523nat) % 18446744069414584321nat);
    assert(pow_mod(7, 1044495, 18446744069414584321) == 9849600182067894019);
    assert(pow_mod(7, 2088990, 18446744069414584321) == (9849600182067894019nat * 9849600182067894019nat) % 18446744069414584321nat);
    assert(pow_mod(7, 2088990, 18446744069414584321) == 10583023550344909108);
    assert(pow_mod(7, 2088991, 18446744069414584321) == (7nat * 10583023550344909108nat) % 18446744069414584321nat);
    assert(pow_mod(7, 2088991, 18446744069414584321) == 294188574756026472);
    assert(pow_mod(7, 4177982, 18446744069414584321) == (294188574756026472nat * 294188574756026472nat) % 18446744069414584321nat);
    assert(pow_mod(7, 4177982, 18446744069414584321) == 7184320642221521177);
    assert(pow_mod(7, 4177983, 18446744069414584321) == (7nat * 7184320642221521177nat) % 18446744069414584321nat);
    assert(pow_mod(7, 4177983, 18446744069414584321) == 13396756356721479597);
    assert(pow_mod(7, 8355966, 18446744069414584321) == (13396756356721479597nat * 13396756356721479597nat) % 18446744069414584321nat);
    assert(pow_mod(7, 8355966, 18446744069414584321) == 5302980850127352725);
    assert(pow_mod(7, 8355967, 18446744069414584321) == (7nat * 5302980850127352725nat) % 18446744069414584321nat);
    assert(pow_mod(7, 8355967, 18446744069414584321) == 227377812062300433);
    assert(pow_mod(7, 16711934, 18446744069414584321) == (227377812062300433nat * 227377812062300433nat) % 18446744069414584321nat);
    assert(pow_mod(7, 16711934, 18446744069414584321) == 8373948673660040785);
    assert(pow_mod(7, 16711935, 18446744069414584321) == (7nat * 8373948673660040785nat) % 18446744069414584321nat);
    assert(pow_mod(7, 16711935, 18446744069414584321) == 3277408507376532532);
    assert(pow_mod(7, 33423870, 18446744069414584321) == (3277408507376532532nat * 3277408507376532532nat) % 18446744069414584321nat);
    assert(pow_mod(7, 33423870, 18446744069414584321) == 10187910960120918295);
    assert(pow_mod(7, 66847740, 18446744069414584321) == (10187910960120918295nat * 10187910960120918295nat) % 18446744069414584321nat);
    assert(pow_mod(7, 66847740, 18446744069414584321) == 1234511965033452377);
    assert(pow_mod(7, 133695480, 18446744069414584321) == (1234511965033452377nat * 1234511965033452377nat) % 18446744069414584321nat);
    assert(pow_mod(7, 133695480, 18446744069414584321) == 15363200638052948867);
    assert(pow_mod(7, 267390960, 18446744069414584321) == (15363200638052948867nat * 15363200638052948867nat) % 18446744069414584321nat);
    assert(pow_mod(7, 267390960, 18446744069414584321) == 1236027695563809108);
    assert(pow_mod(7, 534781920, 18446744069414584321) == (1236027695563809108nat * 1236027695563809108nat) % 18446744069414584321nat);
    assert(pow_mod(7, 534781920, 18446744069414584321) == 12002353154524589429);
    assert(pow_mod(7, 1069563840, 18446744069414584321) == (12002353154524589429nat * 12002353154524589429nat) % 18446744069414584321nat);
    assert(pow_mod(7, 1069563840, 18446744069414584321) == 14027517171084490203);
    assert(pow_mod(7, 2139127680, 18446744069414584321) == (14027517171084490203nat * 14027517171084490203nat) % 18446744069414584321nat);
    assert(pow_mod(7, 2139127680, 18446744069414584321) == 2711851439569513933);
    assert(pow_mod(7, 4278255360, 18446744069414584321) == (2711851439569513933nat * 2711851439569513933nat) % 18446744069414584321nat);
    assert(pow_mod(7, 4278255360, 18446744069414584321) == 80652374890911913);
    assert(pow_mod(7, 8556510720, 18446744069414584321) == (80652374890911913nat * 80652374890911913nat) % 18446744069414584321nat);
    assert(pow_mod(7, 8556510720, 18446744069414584321) == 5283607704788425345);
    assert(pow_mod(7, 17113021440, 18446744069414584321) == (5283607704788425345nat * 5283607704788425345nat) % 18446744069414584321nat);
    assert(pow_mod(7, 17113021440, 18446744069414584321) == 15514810852250684057);
    assert(pow_mod(7, 34226042880, 18446744069414584321) == (15514810852250684057nat * 15514810852250684057nat) % 18446744069414584321nat);
    assert(pow_mod(7, 34226042880, 18446744069414584321) == 13397417830393806946);
    assert(pow_mod(7, 68452085760, 18446744069414584321) == (13397417830393806946nat * 13397417830393806946nat) % 18446744069414584321nat);
    assert(pow_mod(7, 68452085760, 18446744069414584321) == 16359729400225625612);
    assert(pow_mod(7, 136904171520, 18446744069414584321) == (16359729400225625612nat * 16359729400225625612nat) % 18446744069414584321nat);
    assert(pow_mod(7, 136904171520, 18446744069414584321) == 8019533974815212444);
    assert(pow_mod(7, 273808343040, 18446744069414584321) == (8019533974815212444nat * 8019533974815212444nat) % 18446744069414584321nat);
    assert(pow_mod(7, 273808343040, 18446744069414584321) == 9655755660440986855);
    assert(pow_mod(7, 547616686080, 18446744069414584321) == (9655755660440986855nat * 9655755660440986855nat) % 18446744069414584321nat);
    assert(pow_mod(7, 547616686080, 18446744069414584321) == 3604536941271117731);
    assert(pow_mod(7, 1095233372160, 18446744069414584321) == (3604536941271117731nat * 3604536941271117731nat) % 18446744069414584321nat);
    assert(pow_mod(7, 1095233372160, 18446744069414584321) == 17307879323250707139);
    assert(pow_mod(7, 2190466744320, 18446744069414584321) == (17307879323250707139nat * 17307879323250707139nat) % 18446744069414584321nat);
    assert(pow_mod(7, 2190466744320, 18446744069414584321) == 16869139653157226251);
    assert(pow_mod(7, 4380933488640, 18446744069414584321) == (16869139653157226251nat * 16869139653157226251nat) % 18446744069414584321nat);
    assert(pow_mod(7, 4380933488640, 18446744069414584321) == 6953284473670099805);
    assert(pow_mod(7, 8761866977280, 18446744069414584321) == (6953284473670099805nat * 6953284473670099805nat) % 18446744069414584321nat);
    assert(pow_mod(7, 8761866977280, 18446744069414584321) == 18224581395058808609);
    assert(pow_mod(7, 17523733954560, 18446744069414584321) == (18224581395058808609nat * 18224581395058808609nat) % 18446744069414584321nat);
    assert(pow_mod(7, 17523733954560, 18446744069414584321) == 12317229062629230801);
    assert(pow_mod(7, 35047467909120, 18446744069414584321) == (12317229062629230801nat * 12317229062629230801nat) % 18446744069414584321nat);
    assert(pow_mod(7, 35047467909120, 18446744069414584321) == 8521080430804482018);
    assert(pow_mod(7, 70094935818240, 18446744069414584321) == (8521080430804482018nat * 8521080430804482018nat) % 18446744069414584321nat);
    assert(pow_mod(7, 70094935818240, 18446744069414584321) == 1553296775282575040);
    assert(pow_mod(7, 140189871636480, 18446744069414584321) == (1553296775282575040nat * 1553296775282575040nat) % 18446744069414584321nat);
    assert(pow_mod(7, 140189871636480, 18446744069414584321) == 13200482976866298980);
    assert(pow_mod(7, 280379743272960, 18446744069414584321) == (13200482976866298980nat * 13200482976866298980nat) % 18446744069414584321nat);
    assert(pow_mod(7, 280379743272960, 18446744069414584321) == 14925891398157497804);
    assert(pow_mod(7, 560759486545920, 18446744069414584321) == (14925891398157497804nat * 14925891398157497804nat) % 18446744069414584321nat);
    assert(pow_mod(7, 560759486545920, 18446744069414584321) == 15678887058344505597);
    assert(pow_mod(7, 1121518973091840, 18446744069414584321) == (15678887058344505597nat * 15678887058344505597nat) % 18446744069414584321nat);
    assert(pow_mod(7, 1121518973091840, 18446744069414584321) == 14658776698600081839);
    assert(pow_mod(7, 2243037946183680, 18446744069414584321) == (14658776698600081839nat * 14658776698600081839nat) % 18446744069414584321nat);
    assert(pow_mod(7, 2243037946183680, 18446744069414584321) == 16565152875265738852);
    assert(pow_mod(7, 4486075892367360, 18446744069414584321) == (16565152875265738852nat * 16565152875265738852nat) % 18446744069414584321nat);
    assert(pow_mod(7, 4486075892367360, 18446744069414584321) == 5984943436188102888);
    assert(pow_mod(7, 8972151784734720, 18446744069414584321) == (5984943436188102888nat * 5984943436188102888nat) % 18446744069414584321nat);
    assert(pow_mod(7, 8972151784734720, 18446744069414584321) == 14921717924877542342);
    assert(pow_mod(7, 17944303569469440, 18446744069414584321) == (14921717924877542342nat * 14921717924877542342nat) % 18446744069414584321nat);
    assert(pow_mod(7, 17944303569469440, 18446744069414584321) == 1654982787239893223);
    assert(pow_mod(7, 35888607138938880, 18446744069414584321) == (1654982787239893223nat * 1654982787239893223nat) % 18446744069414584321nat);
    assert(pow_mod(7, 35888607138938880, 18446744069414584321) == 18353445258623017512);
    assert(pow_mod(7, 71777214277877760, 18446744069414584321) == (18353445258623017512nat * 18353445258623017512nat) % 18446744069414584321nat);
    assert(pow_mod(7, 71777214277877760, 18446744069414584321) == 995085315851368103);
}

/// 7^((q-1)/65537) modulo q, which is not 1.
pub proof fn lemma_pow_seven_over_65537()
    ensures
        pow_mod(7, 281470681743360, 18446744069414584321) == 8478886009461009681,
{
    assert(pow_mod(7, 0, 18446744069414584321) == 1);
    assert(pow_mod(7, 1, 18446744069414584321) == (7nat * 1nat) % 18446744069414584321nat);
    assert(pow_mod(7, 1, 18446744069414584321) == 7);
    assert(pow_mod(7, 2, 18446744069414584321) == (7nat * 7nat) % 18446744069414584321nat);
    assert(pow_mod(7, 2, 18446744069414584321) == 49);
    assert(pow_mod(7, 3, 18446744069414584321) == (7nat * 49nat) % 18446744069414584321nat);
    assert(pow_mod(7, 3, 18446744069414584321) == 343);
    assert(pow_mod(7, 6, 18446744069414584321) == (343nat * 343nat) % 18446744069414584321nat);
    assert(pow_mod(7, 6, 18446744069414584321) == 117649);
    assert(pow_mod(7, 7, 18446744069414584321) == (7nat * 117649nat) % 18446744069414584321nat);
    assert(pow_mod(7, 7, 18446744069414584321) == 823543);
    assert(pow_mod(7, 14, 18446744069414584321) == (823543nat * 823543nat) % 18446744069414584321nat);
    assert(pow_mod(7, 14, 18446744069414584321) == 678223072849);
    assert(pow_mod(7, 15, 18446744069414584321) == (7nat * 678223072849nat) % 18446744069414584321nat);
    assert(pow_mod(7, 15, 18446744069414584321) == 4747561509943);
    assert(pow_mod(7, 30, 18446744069414584321) == (4747561509943nat * 4747561509943nat) % 18446744069414584321nat);
    assert(pow_mod(7, 30, 18446744069414584321) == 1582037354089406189);
    assert(pow_mod(7, 31, 18446744069414584321) == (7nat * 1582037354089406189nat) % 18446744069414584321nat);
    assert(pow_mod(7, 31, 18446744069414584321) == 11074261478625843323);
    assert(pow_mod(7, 62, 18446744069414584321) == (11074261478625843323nat * 11074261478625843323nat) % 18446744069414584321nat);
    assert(pow_mod(7, 62, 18446744069414584321) == 14911712358349047125);
    assert(pow_mod(7, 63, 18446744069414584321) == (7nat * 14911712358349047125nat) % 18446744069414584321nat);
    assert(pow_mod(7, 63, 18446744069414584321) == 12148266161370408270);
    assert(pow_mod(7, 126, 18446744069414584321) == (12148266161370408270nat * 12148266161370408270nat) % 18446744069414584321nat);
    assert(pow_mod(7, 126, 18446744069414584321) == 14177331716484271384);
    assert(pow_mod(7, 127, 18446744069414584321) == (7nat * 14177331716484271384nat) % 18446744069414584321nat);
    assert(pow_mod(7, 127, 18446744069414584321) == 7007601668316978083);
    assert(pow_mod(7, 254, 18446744069414584321) == (7007601668316978083nat * 7007601668316978083nat) % 18446744069414584321nat);
    assert(pow_mod(7, 254, 18446744069414584321) == 1160753142525841411);
    assert(pow_mod(7, 255, 18446744069414584321) == (7nat * 1160753142525841411nat) % 18446744069414584321nat);
    assert(pow_mod(7, 255, 18446744069414584321) == 8125271997680889877);
    assert(pow_mod(7, 510, 18446744069414584321) == (8125271997680889877nat * 8125271997680889877nat) % 18446744069414584321nat);
    assert(pow_mod(7, 510, 18446744069414584321) == 10915923311382173605);
    assert(pow_mod(7, 511, 18446744069414584321) == (7nat * 10915923311382173605nat) % 18446744069414584321nat);
    assert(pow_mod(7, 511, 18446744069414584321) == 2624486902016877951);
    assert(pow_mod(7, 1022, 18446744069414584321) == (2624486902016877951nat * 2624486902016877951nat) % 18446744069414584321nat);
    assert(pow_mod(7, 1022, 18446744069414584321) == 1179017105118043277);
    assert(pow_mod(7, 1023, 18446744069414584321) == (7nat * 1179017105118043277nat) % 18446744069414584321nat);
    assert(pow_mod(7, 1023, 18446744069414584321) == 8253119735826302939);
    assert(pow_mod(7, 2046, 18446744069414584321) == (8253119735826302939nat * 8253119735826302939nat) % 18446744069414584321nat);
    assert(pow_mod(7, 2046, 18446744069414584321) == 13682469552810377440);
    assert(pow_mod(7, 2047, 18446744069414584321) == (7nat * 13682469552810377440nat) % 18446744069414584321nat);
    assert(pow_mod(7, 2047, 18446744069414584321) == 3543566522599720475);
    assert(pow_mod(7, 4094, 18446744069414584321) == (3543566522599720475nat * 3543566522599720475nat) % 18446744069414584321nat);
    assert(pow_mod(7, 4094, 18446744069414584321) == 12252646851770615269);
    assert(pow_mod(7, 4095, 18446744069414584321) == (7nat * 12252646851770615269nat) % 18446744069414584321nat);
    assert(pow_mod(7, 4095, 18446744069414584321) == 11981551684735969599);
    assert(pow_mod(7, 8190, 18446744069414584321) == (11981551684735969599nat * 11981551684735969599nat) % 18446744069414584321nat);
    assert(pow_mod(7, 8190, 18446744069414584321) == 9343193256669382154);
    assert(pow_mod(7, 8191, 18446744069414584321) == (7nat * 9343193256669382154nat) % 18446744069414584321nat);
    assert(pow_mod(7, 8191, 18446744069414584321) == 10062120588441922115);
    assert(pow_mod(7, 16382, 18446744069414584321) == (10062120588441922115nat * 10062120588441922115nat) % 18446744069414584321nat);
    assert(pow_mod(7, 16382, 18446744069414584321) == 4133221502128927102);
    assert(pow_mod(7, 16383, 18446744069414584321) == (7nat * 4133221502128927102nat) % 18446744069414584321nat);
    assert(pow_mod(7, 16383, 18446744069414584321) == 10485806445487905393);
    assert(pow_mod(7, 32766, 18446744069414584321) == (10485806445487905393nat * 10485806445487905393nat) % 18446744069414584321nat);
    assert(pow_mod(7, 32766, 18446744069414584321) == 5861853314594190514);
    assert(pow_mod(7, 32767, 18446744069414584321) == (7nat * 5861853314594190514nat) % 18446744069414584321nat);
    assert(pow_mod(7, 32767, 18446744069414584321) == 4139485063330164956);
    assert(pow_mod(7, 65534, 18446744069414584321) == (4139485063330164956nat * 4139485063330164956nat) % 18446744069414584321nat);
    assert(pow_mod(7, 65534, 18446744069414584321) == 7004045467739516513);
    assert(pow_mod(7, 65535, 18446744069414584321) == (7nat * 7004045467739516513nat) % 18446744069414584321nat);
    assert(pow_mod(7, 65535, 18446744069414584321) == 12134830135347446949);
    assert(pow_mod(7, 131070, 18446744069414584321) == (12134830135347446949nat * 12134830135347446949nat) % 18446744069414584321nat);
    assert(pow_mod(7, 131070, 18446744069414584321) == 618113109518621269);
    assert(pow_mod(7, 262140, 18446744069414584321) == (618113109518621269nat * 618113109518621269nat) % 18446744069414584321nat);
    assert(pow_mod(7, 262140, 18446744069414584321) == 10057574059836717585);
    assert(pow_mod(7, 524280, 18446744069414584321) == (10057574059836717585nat * 10057574059836717585nat) % 18446744069414584321nat);
    assert(pow_mod(7, 524280, 18446744069414584321) == 11436575600859740313);
    assert(pow_mod(7, 1048560, 18446744069414584321) == (11436575600859740313nat * 11436575600859740313nat) % 18446744069414584321nat);
    assert(pow_mod(7, 1048560, 18446744069414584321) == 2460531272136303351);
    assert(pow_mod(7, 2097120, 18446744069414584321) == (2460531272136303351nat * 2460531272136303351nat) % 18446744069414584321nat);
    assert(pow_mod(7, 2097120, 18446744069414584321) == 5287351674330089703);
    assert(pow_mod(7, 4194240, 18446744069414584321) == (5287351674330089703nat * 5287351674330089703nat) % 18446744069414584321nat);
    assert(pow_mod(7, 4194240, 18446744069414584321) == 2729558173611838869);
    assert(pow_mod(7, 8388480, 18446744069414584321) == (2729558173611838869nat * 2729558173611838869nat) % 18446744069414584321nat);
    assert(pow_mod(7, 8388480, 18446744069414584321) == 5809869834850305452);
    assert(pow_mod(7, 16776960, 18446744069414584321) == (5809869834850305452nat * 5809869834850305452nat) % 18446744069414584321nat);
    assert(pow_mod(7, 16776960, 18446744069414584321) == 4380238239217790048);
    assert(pow_mod(7, 33553920, 18446744069414584321) == (4380238239217790048nat * 4380238239217790048nat) % 18446744069414584321nat);
    assert(pow_mod(7, 33553920, 18446744069414584321) == 10313688370767105378);
    assert(pow_mod(7, 67107840, 18446744069414584321) == (10313688370767105378nat * 10313688370767105378nat) % 18446744069414584321nat);
    assert(pow_mod(7, 67107840, 18446744069414584321) == 1116132233887293652);
    assert(pow_mod(7, 134215680, 18446744069414584321) == (1116132233887293652nat * 1116132233887293652nat) % 18446744069414584321nat);
    assert(pow_mod(7, 134215680, 18446744069414584321) == 8201916556687100419);
    assert(pow_mod(7, 268431360, 18446744069414584321) == (8201916556687100419nat * 8201916556687100419nat) % 18446744069414584321nat);
    assert(pow_mod(7, 268431360, 18446744069414584321) == 9569002298025400893);
    assert(pow_mod(7, 536862720, 18446744069414584321) == (9569002298025400893nat * 9569002298025400893nat) % 18446744069414584321nat);
    assert(pow_mod(7, 536862720, 18446744069414584321) == 3860342023949954178);
    assert(pow_mod(7, 1073725440, 18446744069414584321) == (3860342023949954178nat * 3860342023949954178nat) % 18446744069414584321nat);
    assert(pow_mod(7, 1073725440, 18446744069414584321) == 2518827640559301834);
    assert(pow_mod(7, 2147450880, 18446744069414584321) == (2518827640559301834nat * 2518827640559301834nat) % 18446744069414584321nat);
    assert(pow_mod(7, 2147450880, 18446744069414584321) == 4408381949760333744);
    assert(pow_mod(7, 4294901760, 18446744069414584321) == (4408381949760333744nat * 4408381949760333744nat) % 18446744069414584321nat);
    assert(pow_mod(7, 4294901760, 18446744069414584321) == 5214785644524920463);
    assert(pow_mod(7, 8589803520, 18446744069414584321) == (5214785644524920463nat * 5214785644524920463nat) % 18446744069414584321nat);
    assert(pow_mod(7, 8589803520, 18446744069414584321) == 16359673064222316581);
    assert(pow_mod(7, 17179607040, 18446744069414584321) == (16359673064222316581nat * 16359673064222316581nat) % 18446744069414584321nat);
    assert(pow_mod(7, 17179607040, 18446744069414584321) == 7241809583754189836);
    assert(pow_mod(7, 34359214080, 18446744069414584321) == (7241809583754189836nat * 7241809583754189836nat) % 18446744069414584321nat);
    assert(pow_mod(7, 34359214080, 18446744069414584321) == 12639803007403283714);
    assert(pow_mod(7, 68718428160, 18446744069414584321) == (12639803007403283714nat * 12639803007403283714nat) % 18446744069414584321nat);
    assert(pow_mod(7, 68718428160, 18446744069414584321) == 12324653451830581392);
    assert(pow_mod(7, 137436856320, 18446744069414584321) == (12324653451830581392nat * 12324653451830581392nat) % 18446744069414584321nat);
    assert(pow_mod(7, 137436856320, 18446744069414584321) == 3248773168955372845);
    assert(pow_mod(7, 274873712640, 18446744069414584321) == (3248773168955372845nat * 3248773168955372845nat) % 18446744069414584321nat);
    assert(pow_mod(7, 274873712640, 18446744069414584321) == 11622038198969340988);
    assert(pow_mod(7, 549747425280, 18446744069414584321) == (11622038198969340988nat * 11622038198969340988nat) % 18446744069414584321nat);
    assert(pow_mod(7, 549747425280, 18446744069414584321) == 13512512774593501075);
    assert(pow_mod(7, 1099494850560, 18446744069414584321) == (13512512774593501075nat * 13512512774593501075nat) % 18446744069414584321nat);
    assert(pow_mod(7, 1099494850560, 18446744069414584321) == 7628844061018354094);
    assert(pow_mod(7, 2198989701120, 18446744069414584321) == (7628844061018354094nat * 7628844061018354094nat) % 18446744069414584321nat);
    assert(pow_mod(7, 2198989701120, 18446744069414584321) == 10832619856158324041);
    assert(pow_mod(7, 4397979402240, 18446744069414584321) == (10832619856158324041nat * 10832619856158324041nat) % 18446744069414584321nat);
    assert(pow_mod(7, 4397979402240, 18446744069414584321) == 6522121551337605094);
    assert(pow_mod(7, 8795958804480, 18446744069414584321) == (6522121551337605094nat * 6522121551337605094nat) % 18446744069414584321nat);
    assert(pow_mod(7, 8795958804480, 18446744069414584321) == 4924686556790045269);
    assert(pow_mod(7, 17591917608960, 18446744069414584321) == (4924686556790045269nat * 4924686556790045269nat) % 18446744069414584321nat);
    assert(pow_mod(7, 17591917608960, 18446744069414584321) == 8233486007872169718);
    assert(pow_mod(7, 35183835217920, 18446744069414584321) == (8233486007872169718nat * 8233486007872169718nat) % 18446744069414584321nat);
    assert(pow_mod(7, 35183835217920, 18446744069414584321) == 6861851865518519982);
    assert(pow_mod(7, 70367670435840, 18446744069414584321) == (6861851865518519982nat * 6861851865518519982nat) % 18446744069414584321nat);
    assert(pow_mod(7, 70367670435840, 18446744069414584321) == 16452032933035937120);
    assert(pow_mod(7, 140735340871680, 18446744069414584321) == (16452032933035937120nat * 16452032933035937120nat) % 18446744069414584321nat);
    assert(pow_mod(7, 140735340871680, 18446744069414584321) == 7318164361609642178);
    assert(pow_mod(7, 281470681743360, 18446744069414584321) == (7318164361609642178nat * 7318164361609642178nat) % 18446744069414584321nat);
    assert(pow_mod(7, 281470681743360, 18446744069414584321) == 8478886009461009681);
}

} // verus!
