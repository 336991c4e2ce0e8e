use std::io::ErrorKind;

use dragonos_kernel::xz_check::check_xz_data;

fn unhex(s: &str) -> Vec<u8> {
    (0..s.len())
        .step_by(2)
        .map(|i| u8::from_str_radix(&s[i..i + 2], 16).unwrap())
        .collect()
}

/// "hello hello hello", CRC32 check.
const HELLO_XZ: &str = "fd377a585a0000016922de360200210116000000742fe5a3e00010000b5d00341949ee8de94f7e15e00000008088f9e500012311b8e29ff49042990d010000000001595a";

/// 200000 zero bytes, SHA-256 check.
const ZEROS_XZ: &str = "fd377a585a00000ae1fb0ca10200210116000000742fe5a3e30d3f00615d00006ffdffffa3b7ff473e481572396151b89228e6a38607f9eee41e82d32fc53a3c014bb17ec98a8a4d2fa30dd97fa6e38c231153e05918c5758ae277f8b6947f0c6ac0de744964e2e95c53b204d8f7440cab5f0d6d46e9e5c37688b77f3fe7f300000000004cbbd9be0cba685835755f827758705db5a413c5494c34262cd25946a73e758200019501c09a0c00b1e6e299b6e9df1c02000000000a595a";

/// 9000 pseudo-random bytes, CRC64 check: more than one input block.
const RANDOM_XZ: [&str; 189] = [
    "fd377a585a000004e6d6b446020021010c0000008f98419c012327dc0465aa1fad1d5adae5ac1b1e5f1370796cfd10ff",
    "19af601d04acb41d022b4678733af2df5faeb70859d1ee3910cb4895b5cc892911ff06b6622edf3cf935fd4b9428ca09",
    "7c44b3025e965fb3ea6dacd42d816e69afe0e6874c9c04e7d2365d2c60c9eaf479f686a0eb9326e46212d50dcbb37715",
    "6a6a3a68ba8edb7408469ef3ceb30af8d0dd68bbf85ffa24f2d2fc1887fb5c87bab43832a59b1b3d107cf778d67fe26d",
    "f81191297e9395cb12c557ce5af1d41618d719bc045b7e9965f1a29471c42aac6aa938c475c7ad3238021f053b2c991a",
    "fceb15decf68bae07cbcd61e971b9a0b9dbe9763d392fcafdfa28c97234562ebdd076570ff58896acff7caee3f1ce9e4",
    "0a68e5de938d389c7dbdd75b09d4e7e233443f4a8cc4a190d6b8b8dc615fd18e28be590eaa501b508a6a3629e670df55",
    "77badc446d43bba90817d6c0f67b086170d92dc912725b247ec2e2dab1b2049e208074379a6f900cdd2e5e72f50948b6",
    "58d197e9c38cb16ed3dd124462320c14a7af3ffa0cded613ce1386cb57a047e45bbed145b436d588fed20041f287b10f",
    "835f7465ba28461652df88a213d9bf42efb711b5de077fc979bae3a8584aa9e82da84d509de6986be2a99acf214c662a",
    "8cd5901137986789bbadf3518d13adf51ca10194acb0846cf58af52a7a91f5f3ab2f8632ba8145203dc36714887a7590",
    "c863c707e01ec270039ad18b163f24f6c3de2bef5d5ad1e6761379ca4216b910aa05d98330c70acf85f066cbecefac89",
    "4cfab71f18bac334dfb6604ab28032cd39a16edf944414e1f3a6ecc1f4394306c09b629de33ad361efc3536bd04f961f",
    "ee4dbdf3052d97fec4d19b4527b4a2c494d8643eb871b9c41f538b08951c9e5f4021ff977a1a4d7f708cab2f7cfa801b",
    "42caf5db8cf92cb8e67e41f6f97f01e4a8366da4eca2edba70ed5457eba0976341894d4d5968e692bc5cab0ef3107906",
    "9da53df1525d2e093b0dce966d419ef50a2ca46b16569dac1a0402297b66bd1d9783a856a5e5cac3490450c2fa734d28",
    "14cc310dbc5d0b5c788f7e1e8a1a85810febe6abdcd0774114e914b589cf5c53d8812e0b4313e6fc4c1557c517c4888a",
    "7df32fc8efb7efd911d5504612ec82d0cd62d13da110e8e311adc6f61afb809158b3bb85d731e8e5bae03e4e8e6379f7",
    "6b89547cd0eec76a3c7000898c5823ed1845c2bb8cd81bbc862114a3f4ccf71e2b0bed9fc8433ce74776405765732bf6",
    "35bf7c41044240b6eeb10c1f3dbfb69f8503d67d80a7ffb4aad6bd369ce34e04293a21ef3a07102b69a85c9960d36cd1",
    "f08745f1f0b4c827dca9af002941466f69cde99d23c04174701d3de956a1d20ce4b073d011004f9b55074e8c0525c990",
    "6f920b24b9058ce77a29e7e715c1a1a8da9598f3db244c658e08d1b3272790beb39ec15af46ea9de00e4936b98ca8ffd",
    "4950ed3344b777defec3724b88de5351ab0c4219cb924fb07966774ed5555564a9f7a8674753885f1e51672e1fe3caa1",
    "d2f2c538360a38b55dc6cc67c4faab3373a20267d98d373e65c9ea33e4cdad069e69848f2e6e1b46251dca8e5e5049c4",
    "1f6a320bf4003cd54c443132d036b4d98789b5f7ab56b0b94882a89b9af0e76e2467722c90424e7c4ada7603dab49770",
    "05699146a359ae683f0fa06671723d8afab1f9a0a4ec2789d7a3ef7ffbdf0e2591225156110fcfaa81dae9c8da6e026e",
    "1a5fff4128967d556cb6d57c2a50d14fa3cc2bfeea12c9d787fbbb97cd7bf074fb8abce615d70a39802c60d4609f9847",
    "b27e581628f85647c88b4dad4332bef3164a67676248848c8c1dc85e94641a6336511076c35a2c53bca2d9e1332a2343",
    "e2b73a9d0881a5a607a045f2bf3611fda85d8bf7b2cf0551dc58950c96fcd9bcd7e86b5efe1923df6ace0f68d8af336b",
    "7fba016fedf1979ba0c5bb04634097b66ef534843da9b7902cbf5e99d7643a07347faab86d569b887e0081a3938e148a",
    "1ff8cbe6bcc91910c68a6a5cb5f0dc293ec4bea92996c971f12120bf1d7d098f6107695c731001b6ae486b896ae9d227",
    "16a3741a1a4ad9ac6e42d132faa62f1dac3b46bf5b1827dc5f1199f8ece8d55b333206e4370a83936f79cad421a13c8c",
    "79ac9be56c7643da4ffc2b8135849b1b0d8aabdd786e7f7c6cdf447b8a05e9343f719ea89cc50d06f6235bfd3d56ddc1",
    "1dc39adfd60d85c1dc8b77012e6bee6e76a388dfe69b3dbacd9b5f42fbf653a5daf40dc149814dba37969b3c046b0391",
    "975991623f918b4c4b7f712a68fcb51dbd363a5bc85f8fbdf618e806059ce0f41aadf109a13eaf16e8e5c78c7bffbb82",
    "3da05b864b4202249029963728973df276b5e0ac043c60701de69b402c981d2dd34ca618cbc060457ee0dda566f4d2e0",
    "238995245f2158b0629a231f745e9375f65054eb3f725f7a3756f429b64a57179a434a48aa854d2f2e1898ff4aebd5b2",
    "1ec49ed69fefb91a34a3159c103283f052f936f0de02f946f97932baa7d59a3cc4c2bab1e5d0247eecde77d56d4410c2",
    "c4c390f4f22e124c3cd5292782b49c6c6060e15406ad5afcd72051acc418b5e567bb922cdfa152996e43b51ed4229298",
    "69b74b98fc1e11ee6e81ddf90e4529b1b3f772719cf56f8508dc0e7894b5331a57de3053beba02ab291851954264267f",
    "21906a9a22c0226981b86c0bba063949a2eec85f451ae68b7ffee756590d62a5299db07f689a239c51ee07b13fac5a7d",
    "c4ff4a9388d573e6e84bd5164ad7977d42377df8661d2a75f19717411a404f0f3229f0c780856215dc1654ac0e5b7b5e",
    "e4760add15dff04ed9cbd493445ad1556683f1d424bf6b6ed5789cf19c30c7a088728d076c792a7f7fa1757fb49196a9",
    "d82684906d1e464b4889e5bbecf0339ba5423f4c6482935e5e3334de637f5762fe29e3d55238ab03af6167e4f73177a8",
    "b3ff5886f494e245eb96478748b9ccd853a6457acba751ee82175a42b48b4b1e2bc0108c1544cf8aa1e5e8515bdaad64",
    "4db2e157d100f26437c4f6af1c986755859f9f37be2d1287f5364d179578b25c6468f0455bde45be497f730226ee83a5",
    "38b23d5de8e5629461a2b0aeee2c931a10deab1a62d701532d610914cb265766bc1121d88a0579075d4147ef5c8e08f5",
    "ca2d48b0dd84e07b5e82f0bb02d79bf18ad6857e9c250e395f2a4bb3da35c8450a6d00dec57c998e51fa60d1c39a079c",
    "1917a02917dcd883e276f4d15dba8d6247b60b7c1158e3e480e0902d070752c1e2eca9b1f2c3903c5c3c7a21e0b50ea4",
    "f91fa162b9b077d6634dbaa7c6b636b75c6fdaec2672efbc4596157b58bd026499c0fa69b61c0eba71591417f63e6ad6",
    "ffb66ab4aa80ab5b159afdb7bf6b23f99eb34e6700335eea221bd8569238a57744da90df77867d7245616aae0d5727bb",
    "810ed5368e8e20bdefac3c3a8f3ba1f0a3f28547841c1d584d0294363818c802b9eac7ad58c40c8c4f24799de7e1149b",
    "931782c3c9d94464a496b3293b47bc27bf5e5ca5566fdaadbb9bc85692c0b7cf8c61bd2c3f57a8f0c235ff5e0c7cbc80",
    "0a83ccf48225427aaa285f3d877042e407e86f58dd2b025420f6afaea34f816712714e74d17efc4994e3772bbe8a6e33",
    "7bc3d0219cf009e635f2fdeff857c13350401cfb3d14c074f2e648f630a6f112600b185e733c77007a411ffb042d353c",
    "3b076c63be7d46533c470a78d45c84db2fd87fe75ba803f866fb4fa9bf6895da4cdf78834a51463ce91ff588a344dfe5",
    "60413d944bcc65287237c3d120a19966fae07634dc2a7789718641fe94f5ba886a5f8a3e3c3f54e7150eb44b1f70f936",
    "be219f4c699e93904d9326b3a007cd1cc54a9ebb249a8a8ec7975bf0b56d6ca40fbb2ca5ec4651abf45fdb7dbe14cffa",
    "ea19b0e5fe74be7301ecee96d92fac0765c653165ab96831de019a36e6b27a7850e5fa93c067a7f03b23a617844f70b8",
    "39594d77ad90927b84939ab5117a85f070c6b39d6209fe5ceb54bb4aad65700d038d52a0dd6385df5e2b12d23703a7b9",
    "c1d312dcddf27c0f8b9965074d0863603a7a9a6ae1cafab7e3e13c654ee79a2cbb25512628bcd7619308dc265bd10308",
    "56375dabb15ca95a8bcf4e4651bb149fd7d4a6553bfdc8ab7ab95880cf58065dcfded33d46b24b20cf0b814e351acf6c",
    "8df74a400f4e0843b9c611eca23426b71f8434f79763966126ae0e54f49a81e954a876bf9c464d83c7453f42cbff196e",
    "bb44b8b29d09437509cf2b3086d4e470a4fc60aad97e50c21c4f195a434e98db1d3496444f3a0ab5ef8711bae260ae59",
    "f60e41dabe8ec95931fbd90c01bc5b55bd6d0887a58ea37851eef8cb00d598fac1f45125440d709e7d62b631fedf1a34",
    "11074451989fc616a61b1839d9cc5aac7dc7c8656295fceb799ce79f31508ed09419847c20032be76628a9de64ddacc8",
    "a39fde7111bb27969cc1a63093a66d81bcbcfee0345289430a2ae3919a9f46a5ab93cb22481aa8f95fe829bb1b7b709f",
    "0107ec53cc269a83093cfe2a72abe09b0cbcc74eff48376b392aa918c1654e83db1484aee11515fedc743281e5993202",
    "3e320acf2fde8b45a29e5f207efcc184c3f9ffca6ab8b10cfaebb76fea01f433ba0ccc7cd0745edd135e81a949da80fa",
    "31ce967e60a62805dcb9c4cb7a7add85f763442dd9a1668d0380488d1b95433d9cad7fa2ba783041f9f5936d8b9da74f",
    "6e4facba42fe5daceb1ceca3ebc5c1a67cacf30e70c68219c9b85b2d180109ec96e73afb0423f992424ca5c3b104b48b",
    "4ae42a9b7b28d7e3c51a53e3173fbab1e74428c916a7f3978126abc666e8d2467d6c5c20d235e5f96432b46780ef74f7",
    "da7eacfa702303141fc236820209d52e8e5dc1746e8665b21f19b7924ba9ed17e7ad00680b2fe25f943a7ed17c01739c",
    "f4cf907146b20f666ee7923b7204df6885e85aebdf6246d259a4bb8acc6666e628da03ef53539b6ec7b37e3aea990042",
    "2c48f359e356e8c4e6192485ebd16465a19551c48cffc121a496b467ad0009fd55e4038b0fa0808eb2b0f39ad0d92672",
    "d719b2caea4e39d67da86a9ab2d0b2f177d5c25a5cdbc68635825fa274176464437d5dd764dabbe7c901d9acf2a2b377",
    "0a33689dc19d7106e8a79f74ce23d6935cda8cc5f239ffac00b83974650ec4e587162d2c377f3b644237ede7d6953458",
    "9b48756c8d03bd7b9be6c2ca01ab9d95669549dfb519dbfabb497fd68504360977df51a22cd2adad11a2ac86c112f6de",
    "1ec9f48f3302091fccf68e16d309940069b65941c83c869bdb062e809adb871927ca6612aad37c2ced555380b63c0694",
    "e8e6c31f58da029c70288291869d089cfaafd7421223ee77958004ed2934441d6c87c816d543d7084920df8f7df231c1",
    "0e917ef6618c155a3c8cda34218a06f36eb0a0fd3610bf38dd077c54766fb9dfdc88950692a4ab2c5b940d2d98d5036f",
    "667b83ad74d97082a4f593b769af5a4edbab534b9a03664569aed5b086aff5e7cbfda9fc8536a34017025a914f48cb66",
    "8313ef9b7443fffddff46a95e2ae92b515514ac464be11c9ae460bb81fd3c37f4dd8a2d015fa2ead347b04b5a46b9430",
    "bc8d9edc070a7075e0d8dc06d2e8fbf2b112a5c177c1acabe05edbe6c57db1b03acadd1c66b1799c25d007525f1e2c16",
    "26d82e46922f2f515cb327023d7da28e041f3f5c7a4de496f548c274be0e0c43244376375ddd70f620921fe102032020",
    "94a5fc743a7469bcca564644e84f54d1246ab66dd06327f2a215fd590fa6e1c062744b3d9ebec0651913cb9ad57bbd18",
    "9d6624bfe4580c9e5d52f84359009ec5e4a4668e9fc5a1e95c96894f7b28fd71074ff9059056d650c6624778daa60f87",
    "954c833f351fc4a00af8b83ad5efcd33db3d6d17ccf33f62575c24cf8a33ec5eeb85dc285664e0e29c519033d867e5b5",
    "9147b8cd92c7fe2b885ac520603deda35e67a721fd2eaf088ab949127f29fd52a08611ffd76bcb03d0726343545dcaad",
    "66091d032013e8694a471bafbfcdcc5f8012b28695775d43a8bc37115f2b3bd37c8477a4b7ac425d57143ee392ea0c35",
    "aa02d239c3836e4186517760783ef87018f0ebdeba90773c2638e984f019742d956fa9f05a26b457e5495c0a982fb8d9",
    "b164b28822583d5e31ca566cd0f2bc9eba716e8352f9e9dc3bbc1ee6b6963567bff9047be79c4e1cf0e3bb722a0d9be0",
    "901f5bcaa194c32800c1f5cccb0a2673bbc7198d00f460ccda9b526ff701cb4b8f93a69e418efb93ac711995ce244254",
    "1ce5299865f72cc8670951392e67023830e289d62a804a76b8e4c217b77c43625b6d6c730f3e6a671046f2aac8d6fafd",
    "eb273a4a530266279c32282c7fa9dff5ef741af6f560d2014c6a6b98bce869f43778f2d2b5ac0800cf7283ab1d44cf65",
    "51156bf910f71def948cf5de023308748ceeea464615e858c9bc0a6c8ae5cc0bf8669654579901875fc5c851934f90d5",
    "63a0587f01d5be87032af747bd248c3e5c80d5e0c3de3623252d1dca67d6b77033a87553dc8642e6f4d28015af98c856",
    "f67b5e744b60761a5fdc2a22755e369b741c799ccfbe2ccb15cddfac57da38ab3d6e6be8e7b578c485e9282fb57fc5b0",
    "9f149c31d2163390dd324ae6ad819495aa7232149075f47a0e6d4fcb20d31c062ca916eade26118cc51bfb9aaa27946d",
    "b49eedd03d3aa292727fd6ceadf0f3f592f31fa0eb857d17449d28a04661f089d40cd2f5e79a39662a38f70e546f02d5",
    "490aee2af0cc2e8ad2d30ad178ca604381d21a59852e734dadb0e9640ee701ffca05bd5fe592de3be8d3da0438f89bf2",
    "3308fed6108d069f73ffe4a9d3f1a7c98cfdc319c3714384fdb6ce107f845bef63c8b4437f50acb4f53c1fb49a25ae8d",
    "080a373081ff17bc8a941fcf4406579089287579ca0f1be5ab80d45d5b1acda2b544537a18d4103b068405187f15462f",
    "1b41794eea620c890ce3397c0f6abb600bc24dd07f8ae759ea9fb8c4294ae222942af89cd7e038f8907c88eaadab3220",
    "839d5f0bafb7556fadfd70a93a3de1c369fc2a3a8722558ab064f77d2e75e83895ecbf029ff410d3c8b565a1a986fd6a",
    "15cf4600f5bf1c97e3b3bf0f89619602b8c8a68d47d8d1dfb2e1ce836ebcec6d0dbb86c616514577a2811977b607f5d5",
    "64494d85a0fc50eae396e52782776726cbd72164e46e888364e53b8eaeffbb091287eac0a2f8454cd4efe165dc5127eb",
    "c73c4fb357ae9d12a2f75e2a69e0a1f73999b6184364685efc02f91674e0e2167701478a66ab3c7cd3d1ba25de435ff5",
    "5198e9647ed77176d4e8671144bd51fe563f43c109fb1d196f89875505c0ad5dd39bbb7c48ea17eed3b8612e41802cfc",
    "d90e79303936f741ef38fd94d7ee438637bc64389b34141d728b214565c02b667b8622afeef6844dcaf654b94b67d9c8",
    "f4111c706f4e1f5b2879dd2ea7160696b1be77171ed17b9479dac49d59c0277b82b21bfdbbd0ef016d9acec1001974e3",
    "f5cfae3ec360936e73fd8416fa94e5f85ab998b677523e65ba052dd767632fa5bfd100fed53a86333176cefe2679cb95",
    "f33ccd739c6bc2e186d33047d58aee3486dba52e4bf80a3b2a5fd92cd40890acc653f10c21b435cc4a1c10e9412669e9",
    "c206d5a71e32d9ded6cedc78fcd8ee944a183b59ffc54d7e7df70595a4d1571aec6ac83f4580a975aedb11ba97829ba6",
    "f7a1e5332d35c34f987d4723f52172217b1fb6d0b879335729a0aecb9c9e513846072571a49d509812c60e6c2cae7055",
    "e83cd73170b62fdcc033ed8104c4c6a4af6134eb5b95aaaf63e9924642120b0eaada633a64ce565ceaad04b6c68bb440",
    "a9c84b794ab58aee04ff0a8b2ee3f9a53a1092c38d5b5e3020252c41db8cd166ac54a0f36a94a8ac6d20b013e9baf370",
    "0ff79ca4e2f300aed9b49dfa3a5fd66e311d6c32b2cbbc411564bbb46a2eb1c9a1a7b8b65b2ef4308e728fbadb9b7bae",
    "af3ae70c1bf17e0674e26247aad8ec07693820d0f1a6f10db6763a57b7d9797f9ec4495b9c9fa65103b3dfa5a0505a82",
    "dec10aca9cf1b19dc9dad6abc5b1863a77d2caf62e6deb7c39ee68a5452eb493795bb07c53a7eb3940b39b8dfeba5b36",
    "b27ea2b6c8f307de8eac371f9009b290b11e48be0e625737921cc1d5598db0cbc6de097163c8b1cf7b0582eb797a0bd3",
    "ff210b69c6b8acf1382b805ccfc23c522b0a3701f685a0a8781182e2f91979b3da7d32547242a4bea9f910f857f1b921",
    "5a1c633d79c18ebffce770da077db388ba4af3560a97f5f65e9ea983e9b1de92ca2ac7fde516316e7fa082ad9c3f71aa",
    "189f874a875059f1ce3182d47e9b63fcf44d9a19311a430c7a54f132aff76a716c952605e105860871cbd5c30d46ffb7",
    "4f9c136956657af1641af541383c58362c4408600f4e3692c084d8288f4b6c1b53306cc64b918f75b60bc6b330a7f250",
    "d3c3653409c21fe63373c5dcfb4260807921db0609343bf1e73f9c5e8fd0ef17d62b7558c8fafa5f40b1d2b54ac3953f",
    "39869a0387e734bb6fcdaf1c4c4e08e3b09470a4438d7f526256388d7365c1af0a78df94bd41332dc7ce36c45fbaf60c",
    "d6168ef0731566180e79303b6fc19d28640fe392a4dbf09e675a6b2ec1ac6febc2c806154f28670abf33f097356fe202",
    "c063ded3334d2366c589853269bc2cd7ecc312e9d05e3a7fea9cb17abd064695958b0831632f84de5c72bba95081e528",
    "ca1ee846ed5197cf09ccabba001f823a5ba099832b18cb5ca12e47696d945236d7f3c2039e97365293da1631f5524e47",
    "8bbac9a184a1af3a0ed45f4cb88c2b598858d6f8dcc8cf6001df2ab6953662169df0d0636561eacf1b7d3d292a0228ea",
    "58655efd9e7e1952cbf21f21d76476fe085be6a2c7f133733f4117d8bb8e013fbc3490ebdd4fce7e672d2d4ab4744258",
    "44134334a1e9417ff338263261c86eb22edba59990d4a43e50a68b0a23fd7d7aca2f1ff3ebe1ce49ad79a20e1747279a",
    "2672d6dfb0a455eafb7573381c98e1be11c8b1b69e70902be81dc443d2a4e4501b135995345897d8e2b31cac98dd257b",
    "92f63355b12f417c193cc2ab8c775c2a85d46793148824617d78bd3e8e640109c4d0dba91db69794bbedd51d3d574982",
    "ddce38b149ccb2de43dc90c6f7c42cc01f6fe388d99c4ccb43493572dcdd61af9a1804c8cbbbfaa6acf7cb1cca9660f8",
    "1ceb81ccdd7a167a2b681a8062a15e0935cb03af90eeb51131e0a7190071530a335bef4c23e8aef7eb61bb21c53af6e8",
    "25ff6c3e93fc997749af5d9490efbe4ddbd963e0a07ecc9cfa4d522c0042e2a4e3cb794dc97f5f316d7e236573a65a19",
    "8c7a16604ed328c0d0441679084edb96e64961b52c0dbf9514633264a02eddc6bf5940a524807abbe65d3fe0d8f99715",
    "a68f5c4cb43e71fdb677c2690f2100aceb8c1a861b1c7ae6b3b2043a65d9cf789cb5a1ec58ac2dc0ccd10b4db9157b24",
    "882cdada2a40e097b0589f5ea9873b1a3fd46a6c10edaa36ce8a45e795a206850f51b97c4a846428546a46249c9a9350",
    "0804eda4d599a2b833baa80f9c625927f812ee417280bdf018fe336435ac8f736e5d646c9f4acc9c73796c9dc5eb2c62",
    "ba88b3029acba547732d9cf66c53e7dceaf6059d6496df3c07dec96909d6378ecdcb3f98bbfed386dd0fbab23a2753e2",
    "f3e8090e1f1695ef6602f74c5fba3203aaf2cadacdb1fe03cfbbc57196c18bdd014ba897c561a50d08fd2d1cbf30d51a",
    "c8168ba0c77be018c04af60a79b946258d361a105010c6ee66e6a5b322d0d72aa04fbcc2a1f52f1c29d48355daa73e13",
    "0fc29851b8bbb1ebf8d696e88032f28ba9b4941854b7a4678170a52ab2222afdfd075833f4fa1f5b35e53794cfeddc95",
    "5b5e4a7bd758f85141379461f8c4c13dd21d928cfc64c695952ac18d0a9a4fa12f6518c22271e133e04188d3a422bd2a",
    "031b8036c9925ff391be6dad26d001059de134c52e9a1863d7a5b856afd7d41d0b1a5908521ba2cda0b971cb1d29ac1b",
    "1ce9d75cf36a553b9d7c5ec41079bf6c5f3155da909947793b3206bfe73a063a2496395f687a5012aadeb1f5c0a13770",
    "7979ac857aa20651d94265617b9ec8ba2eff93a68562c14077e2e9bfb6e6f282d10a95df08ce97acf301c489d1ebaaf4",
    "b13d1b0a43ba601e7ba13dfbebe1a9f9ddfc4ac233b7b2e200875c10e2ba643e25680a629919e5022f33e782562a142d",
    "18660105f3f30f4b78eb65cda5a3aff203989886801808460ab01d2bef59eb77f761f4803f1a663fd4461798133e4167",
    "c3e4fd4eef4e8041852f19ceaf05e62df505590c0fc66e178bafaa492322d2f5dc657093de54074b17c911438ec7bda9",
    "87696a7f5c8de129163f55b8cee71cf4c6332b2b46c254bc38963e638336284227a65db31d0876cfec0e52be0b27d6bd",
    "fa6565f01f301eed61add80486ecde504dd46b7f4bcee4608634d831d278b8a6ef1456b960351f3509271700907f992b",
    "700accbbdd78e5355bc81eeb1c737a091e58355e016a0deca91b342e9887102c0861b83fcb9e2fa4e3e35ec3e1afd33d",
    "fe483cb8fa67a16ab8a36566969efaa98ef167e40ed87b07979dce9217c67d9a07fda19d45c39407afd5e381835a11fc",
    "79d111809dbd81b5ee0da82eb94d2e79b28f9ee7d7179c1b05cae55557540b7c421aeeed71e6fa06614c2271bcdfa030",
    "7716696daafb72ff3299a5bc0923a28160e4360281ea9c52677276321a128919cda93b07b607ce0aaf5b5a8d91608c64",
    "4c472197c66320f27997da49cb7fa28b2c614d8ef2d26894f4283ca0e8a3827b7d5ae68537e73e3c0ed2878ec6bea3de",
    "0d55d5d856f5f8f5781782cd05833d206b36bfa2cd0eae8a9f3bb5d90366456be79f0cbfdb073686b34166ede19a73aa",
    "8ff2e3c87f722833a3ec9c037b103e8832542a1a78a1da9d1ebe1fd6737ddd7160a889ce45a9648f92fb74e22654478f",
    "678f67c1265b9c9430a6e462b3c733cd576eea8c184c19f7e5817550fac918d7fe66fb8cdccd33c26110ee689a0e2d17",
    "eb5c3fdbeff201c11396d725f10869b86ef21e53928e597f2a1576c01feb83a6958cbe91c334d3479551d23703a9f28a",
    "2f4b07ef4137c52303ccb2433bf6edd1cc14a0888baa46e0e2cb9e5f27446aa6ba88f037e1602e07634fdbc8e6c622f3",
    "080c1e9740eb14e4731b727656708b6386c2100368a04e82c2b4292616f4dc61c28e6e96d990f3abbf5b885386c60c18",
    "0c119e2bd190dbec9913d537c518d27472b0c95d4e319c8e3ea116ceb2dda41fc38dd48711c88e9d5f8615d2ebc9bb85",
    "8e8a67c59866c8e3690556bfd04e0dd0234de8f023df20ed8d2322d07fa051eb913680a4afc62d04b8a17effd8b1fd81",
    "a569143dfc6e47349a02330779354afef0ca4cd48aea8448a18bc865c39e2e8cc1fb8e46960dbccbfe3d8251d21f6016",
    "265f032c216a85089fdc6ac888ac5647ee1990e3e953370932ea468582f7498ba80cdc846cdde89a27ab9d021f742f0c",
    "a4dc50ecebd97046ad22b77b7f55beb6f0eb11b565dc6558b31199eb818e6f335c5b073a97371fdae8fc0c0bc4d177ee",
    "7611d99501feb498bb269759a691cf128db0eda3e305fc1e5b917f0e46022d8bb0996bfe3add8db4b601cd2684160703",
    "aff13a01c7dabf687cf9475bff8196e5199901c7080fa8041cbc742816b5cf5c3b36262b3b4f2012c54c9bcae7e56b54",
    "262ad1c8612dbdde666cc4395105df77a998e9fa39fbd673aea1b433f5c76431526415da40ce849c0c2cf430309fefab",
    "702fbb44b6789be3ae11cb6e21bf38d2125e03d39a8bb49484123ee6a81bb7510813d4e3ac5b26ba3db316536465a191",
    "e031d48d6afc07204837d931b310efbfea5b6bad123f2e51d4a1cebbb55056c534f5c0dfa5b83397d0b3fdeb49184e4f",
    "8d21ba7ce1ba6dffebf12b7d0d190fc785c1ffa14558f252939de1eb61c88e586a7af8281165991cf8bb6571635883ed",
    "4baecaab4274faa70a0ebf09f3bb6632f8815c8798d86b007619b46fb0a46c91ffd457d693a404f0ac1ecd1df8878d35",
    "af4c207370aa9c03da21504feb968109184bdff8307fc984f1e4450067c5bdb908f47ac29175e27d9eeb71ea0cc679af",
    "0f2a99eb129effbb52795d88390dac177b90a34ef2cef6c73a914f160ccb0ddb5b8abf8630995fed46f54e8f65f614a6",
    "7f39d4ee8b509038252922ade23ff6e3758288a28307a173466f51ece319abbe8c07437b55916828d7cc228787b7ea21",
    "d42b2c1502817da3c9009c77ac0d2ab71b1229cb482a36efc991867af2cea2ebf09de2b9a69eabd747c06809b86c49e9",
    "a371beb85ab2b2e67291885f1c1ad69b42f0e46465f8e36639c7ed78fdccc0ad9c3d3a1986c294634be45e0ffc343e88",
    "413b68f03a25dda8172c639e76c547597f8dd5c6c1f294c0cba242618ab3920b6697a8341bbe50f55808025219f19647",
    "c47bc79705da69546be26a2dbf318a7a281cda09005af6a67472026cdee665cfe21d48654a11cd77a2bd104b9344de2f",
    "00e13845e2928612e4849bc5bd3d6c47518b900687307781e84a6a94fc84468165fff8c2b8feb7911f540433af8d6308",
    "8adfd754b4cf1ecbb6a3b1def58b7ac8cf8e53577b35437b9dfa7790ac6f026b042f5426ca857cac83dd1d0373ef325c",
    "b7a581dc22d0e028d78f2bb3ab7b00c738934154c0eb477cc813e6da71482596955dba29a56748f1452b5774a4491774",
    "9d25d40052f6420a3ea7ec950001c046a846000018a7c6f9b1c467fb020000000004595a",
];

#[test]
fn valid_stream_passes() {
    assert_eq!(check_xz_data(&unhex(HELLO_XZ)).unwrap(), 17);
}

#[test]
fn stream_with_much_output_passes() {
    assert_eq!(check_xz_data(&unhex(ZEROS_XZ)).unwrap(), 200000);
}

#[test]
fn stream_longer_than_one_read_block_passes() {
    let data = unhex(&RANDOM_XZ.concat());
    assert!(data.len() > 8192);
    assert_eq!(check_xz_data(&data).unwrap(), 9000);
}

#[test]
fn empty_input_is_unexpected_eof() {
    assert_eq!(check_xz_data(&[]).unwrap_err().kind(), ErrorKind::UnexpectedEof);
}

#[test]
fn truncated_stream_is_unexpected_eof() {
    let data = unhex(HELLO_XZ);
    assert_eq!(check_xz_data(&data[..40]).unwrap_err().kind(), ErrorKind::UnexpectedEof);
    let data = unhex(&RANDOM_XZ.concat());
    assert_eq!(check_xz_data(&data[..8500]).unwrap_err().kind(), ErrorKind::UnexpectedEof);
}

#[test]
fn bad_magic_is_invalid_data() {
    let mut data = unhex(HELLO_XZ);
    data[0] = 0;
    assert_eq!(check_xz_data(&data).unwrap_err().kind(), ErrorKind::InvalidData);
}

#[test]
fn corrupted_checksum_is_invalid_data() {
    let mut data = unhex(HELLO_XZ);
    // A byte of the stored CRC32 of the content.
    let n = data.len();
    data[n - 23] ^= 0x55;
    assert_eq!(check_xz_data(&data).unwrap_err().kind(), ErrorKind::InvalidData);
}

#[test]
fn trailing_bytes_after_the_stream_are_ignored() {
    let mut data = unhex(HELLO_XZ);
    data.extend_from_slice(&[1, 2, 3]);
    assert_eq!(check_xz_data(&data).unwrap(), 17);
}
