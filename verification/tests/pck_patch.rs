use cruelty_style::decimal::{decimal_bytes, parse_decimal};
use cruelty_style::options::{decode_flags, encode_flags, PatchOptions};
use cruelty_style::pck::{parse_index, PckParse};
use cruelty_style::rewrite::{patch_pck, PckRewrite};

fn from_hex(parts: &[&str]) -> Vec<u8> {
    let text: String = parts.concat();
    (0..text.len())
        .step_by(2)
        .map(|i| u8::from_str_radix(&text[i..i + 2], 16).unwrap())
        .collect()
}

fn sample_archive() -> Vec<u8> {
    let parts: [&str; 23] = [
        "4744504301000000030000000500000001000000000102030405060708090a0b0c0d0e0f101112131415161718191a1b",
        "1c1d1e1f202122232425262728292a2b2c2d2e2f303132333435363738393a3b3c3d3e3f07000000120000007265733a",
        "2f2f506c617965722e6764000000d7010000000000009300000000000000aaaaaaaaaaaaaaaaaaaaaaaaaaaaaaaa0f00",
        "00007265733a2f2f776561706f6e2e67646d020000000000006000000000000000aaaaaaaaaaaaaaaaaaaaaaaaaaaaaa",
        "aa150000007265733a2f2f4d656e755f746573742e7473636e00d002000000000000be00000000000000aaaaaaaaaaaa",
        "aaaaaaaaaaaaaaaaaaaa170000007265733a2f2f47656e6572616c5f4d656e752e7473636e9103000000000000230000",
        "0000000000aaaaaaaaaaaaaaaaaaaaaaaaaaaaaaaa100000007265733a2f2f55492e67640000000000b7030000000000",
        "007100000000000000aaaaaaaaaaaaaaaaaaaaaaaaaaaaaaaa0f0000007265733a2f2f6f746865722e62696e2b040000",
        "000000000900000000000000aaaaaaaaaaaaaaaaaaaaaaaaaaaaaaaa100000007265733a2f2f506c61ff7965722e6764",
        "37040000000000000e00000000000000aaaaaaaaaaaaaaaaaaaaaaaaaaaaaaaa55555555555555657874656e64732058",
        "0a66756e63205f726561647928293a0a09706173730a66756e63205f706879736963735f70726f636573732864656c74",
        "61293a0a09706c617965725f766965772e666f76203d20777261706628706c617965725f766965772e666f762c20342c",
        "20313230290a0978203d20777261706628706c617965725f766965772e666f762c20342c20313630290a999999090970",
        "6c617965725f776561706f6e2e7472616e73666f726d2e6f726967696e2e78203d206c65727028706c617965725f7765",
        "61706f6e2e7472616e73666f726d2e6f726967696e2e782c202d20302e3133352c2035202a2064656c7461290a999999",
        "5b6e6f6465206e616d653d22464f562220747970653d2248536c696465722220706172656e743d2253657474696e6773",
        "2f47726964436f6e7461696e65722f50616e656c436f6e7461696e65722f56426f78436f6e7461696e6572225d0a5b6e",
        "6f6465206e616d653d2247414d4d412220747970653d2248536c696465722220706172656e743d2253657474696e6773",
        "2f47726964436f6e7461696e65722f50616e656c436f6e7461696e65722f56426f78436f6e7461696e6572225d0a9999",
        "996d61785f76616c7565203d203136302e300a6d61785f76616c7565203d203136302e30999999636f6e737420484541",
        "4c5448203d20310a636f6e7374204445415448203d20320a66756e63205f726561647928293a0a09706173730a096865",
        "616c74685f746578747572652e746578747572652e667073203d20636c616d7028313030202d206865616c74682c2032",
        "342c20313030290a99999900010262696e61727999999966756e63205f726561647928293a999999",
    ];
    from_hex(&parts)
}

fn expected_all_patches() -> Vec<u8> {
    let parts: [&str; 73] = [
        "4744504301000000030000000500000001000000000102030405060708090a0b0c0d0e0f101112131415161718191a1b",
        "1c1d1e1f202122232425262728292a2b2c2d2e2f303132333435363738393a3b3c3d3e3f07000000120000007265733a",
        "2f2f506c617965722e676400000000020000000000005005000000000000d41d8cd98f00b204e9800998ecf8427e0f00",
        "00007265733a2f2f776561706f6e2e67645007000000000000b700000000000000d41d8cd98f00b204e9800998ecf842",
        "7e150000007265733a2f2f4d656e755f746573742e7473636e000808000000000000e000000000000000d41d8cd98f00",
        "b204e9800998ecf8427e170000007265733a2f2f47656e6572616c5f4d656e752e7473636ee808000000000000230000",
        "0000000000d41d8cd98f00b204e9800998ecf8427e100000007265733a2f2f55492e676400000000000c090000000000",
        "006d02000000000000d41d8cd98f00b204e9800998ecf8427e0f0000007265733a2f2f6f746865722e62696e7c0b0000",
        "000000000900000000000000d41d8cd98f00b204e9800998ecf8427e100000007265733a2f2f506c61ff7965722e6764",
        "880b0000000000001302000000000000d41d8cd98f00b204e9800998ecf8427e00000000000000000000000000000000",
        "0000000000000000000000000000000000000000000000000000000000000000657874656e647320580a66756e63205f",
        "726561647928293a0a0976617220636c3d43616e7661734c617965722e6e657728290a09636c2e6e616d653d22537065",
        "656443616e766173220a0976617220736c3d4c6162656c2e6e657728290a09736c2e6e616d653d2253706565644c6162",
        "656c220a09736c2e6164645f636f6c6f725f6f766572726964652822666f6e745f636f6c6f72222c20436f6c6f722831",
        "2c312c3029290a09636c2e6164645f6368696c6428736c290a096765745f7472656528292e6765745f726f6f7428292e",
        "63616c6c5f646566657272656428226164645f6368696c64222c20636c290a0a09766172205f5f636c3d43616e766173",
        "4c617965722e6e657728290a095f5f636c2e6e616d653d2243454f43616e766173220a097661722063723d436f6c6f72",
        "526563742e6e657728290a0963722e6e616d653d225472697052656374220a0963722e6d6f7573655f66696c7465723d",
        "320a0963722e616e63686f725f72696768743d312e300a0963722e616e63686f725f626f74746f6d3d312e300a097661",
        "72206d61743d43616e7661734974656d4d6174657269616c2e6e657728290a096d61742e626c656e645f6d6f64653d31",
        "0a0963722e6d6174657269616c3d6d61740a095f5f636c2e6164645f6368696c64286372290a096765745f7472656528",
        "292e6765745f726f6f7428292e63616c6c5f646566657272656428226164645f6368696c64222c5f5f636c290a0a0970",
        "6173730a66756e63205f706879736963735f70726f636573732864656c7461293a0a0976617220636c3d6765745f7472",
        "656528292e6765745f726f6f7428292e6765745f6e6f64655f6f725f6e756c6c2822537065656443616e76617322290a",
        "09696620636c20213d206e756c6c3a0a090976617220736c3d636c2e6765745f6e6f64655f6f725f6e756c6c28225370",
        "6565644c6162656c22290a0909696620736c20213d206e756c6c3a0a090909736c2e74657874203d202253504545443a",
        "2022202b2073747228696e7428706c617965725f76656c6f636974792e6c656e677468282929290a0909097661722076",
        "705f73697a65203d206765745f76696577706f727428292e73697a650a090909736c2e726563745f706f736974696f6e",
        "203d20566563746f72322876705f73697a652e78202f20322e30202d20736c2e726563745f73697a652e78202f20322e",
        "302c2076705f73697a652e79202d203330290a0a096966206e6f742073656c662e6861735f6d657461282263656f5f74",
        "22293a2073656c662e7365745f6d657461282263656f5f74222c20302e30290a097661722063656f5f74203d2073656c",
        "662e6765745f6d657461282263656f5f742229202b2064656c74610a0973656c662e7365745f6d657461282263656f5f",
        "74222c2063656f5f74290a09766172205f5f636c5f6e6f64653d6765745f7472656528292e6765745f726f6f7428292e",
        "6765745f6e6f64655f6f725f6e756c6c282243454f43616e76617322290a096966205f5f636c5f6e6f64653a0a090976",
        "6172205f5f74723d5f5f636c5f6e6f64652e6765745f6e6f64655f6f725f6e756c6c2822547269705265637422290a09",
        "096966205f5f74723a0a0909095f5f74722e636f6c6f723d436f6c6f722873696e2863656f5f742a352e30292a302e35",
        "2b302e352c73696e2863656f5f742a362e30292a302e352b302e352c73696e2863656f5f742a372e30292a302e352b30",
        "2e352c302e3135290a0a09706c617965725f766965772e666f76203d20777261706628706c617965725f766965772e66",
        "6f762c20342c20323030290a0978203d20777261706628706c617965725f766965772e666f762c20342c20323030290a",
        "0909706c617965725f776561706f6e2e7472616e73666f726d2e6f726967696e2e78203d206c65727028706c61796572",
        "5f776561706f6e2e7472616e73666f726d2e6f726967696e2e782c202d302e3033352c2035202a2064656c7461290a09",
        "090909706c617965725f776561706f6e2e7472616e73666f726d2e6f726967696e2e79203d202d302e310a0909090970",
        "6c617965725f776561706f6e2e7472616e73666f726d2e6f726967696e2e7a203d202d302e310a005b6e6f6465206e61",
        "6d653d22464f562220747970653d2248536c696465722220706172656e743d2253657474696e67732f47726964436f6e",
        "7461696e65722f50616e656c436f6e7461696e65722f56426f78436f6e7461696e6572225d0a6d61785f76616c756520",
        "3d203230302e300a5b6e6f6465206e616d653d2247414d4d412220747970653d2248536c696465722220706172656e74",
        "3d2253657474696e67732f47726964436f6e7461696e65722f50616e656c436f6e7461696e65722f56426f78436f6e74",
        "61696e6572225d0a6d61785f76616c7565203d20332e300a6d61785f76616c7565203d203230302e300a6d61785f7661",
        "6c7565203d203230302e3000766172204845414c5448203d20310a766172204445415448203d20320a66756e63205f72",
        "6561647928293a0a09766172206366203d205b5d0a09666f72206920696e2072616e67652833293a0a09097661722069",
        "6d67203d20496d6167652e6e657728290a0909696620696d672e6c6f61642822757365723a2f2f637573746f6d5f6661",
        "63655f25642e706e67222025206929203d3d204f4b3a0a090909696d672e726573697a65283235362c203235362c2030",
        "290a09090976617220746578203d20496d616765546578747572652e6e657728290a0909097465782e6372656174655f",
        "66726f6d5f696d61676528696d67290a09090963662e617070656e6428746578290a0969662063662e73697a65282920",
        "3e20313a0a09094845414c5448203d2063660a09094445415448203d2063660a09656c69662063662e73697a65282920",
        "3d3d20313a0a09094845414c5448203d2063665b305d0a09094445415448203d2063665b305d0a0a09706173730a0969",
        "6620747970656f66284845414c544829203d3d20545950455f41525241593a0a09096865616c74685f74657874757265",
        "2e74657874757265203d204845414c54485b696e74284f532e6765745f7469636b735f6d7365632829202f2031303030",
        "2e30202a20636c616d7028313030202d206865616c74682c2032342c2031303029292025204845414c54482e73697a65",
        "28295d0a09656c73653a0a09096865616c74685f746578747572652e74657874757265203d204845414c54480a090968",
        "65616c74685f746578747572652e746578747572652e667073203d20636c616d7028313030202d206865616c74682c20",
        "32342c20313030290a00000000010262696e61727900000066756e63205f726561647928293a0a0976617220636c3d43",
        "616e7661734c617965722e6e657728290a09636c2e6e616d653d22537065656443616e766173220a0976617220736c3d",
        "4c6162656c2e6e657728290a09736c2e6e616d653d2253706565644c6162656c220a09736c2e6164645f636f6c6f725f",
        "6f766572726964652822666f6e745f636f6c6f72222c20436f6c6f7228312c312c3029290a09636c2e6164645f636869",
        "6c6428736c290a096765745f7472656528292e6765745f726f6f7428292e63616c6c5f64656665727265642822616464",
        "5f6368696c64222c20636c290a0a09766172205f5f636c3d43616e7661734c617965722e6e657728290a095f5f636c2e",
        "6e616d653d2243454f43616e766173220a097661722063723d436f6c6f72526563742e6e657728290a0963722e6e616d",
        "653d225472697052656374220a0963722e6d6f7573655f66696c7465723d320a0963722e616e63686f725f7269676874",
        "3d312e300a0963722e616e63686f725f626f74746f6d3d312e300a09766172206d61743d43616e7661734974656d4d61",
        "74657269616c2e6e657728290a096d61742e626c656e645f6d6f64653d310a0963722e6d6174657269616c3d6d61740a",
        "095f5f636c2e6164645f6368696c64286372290a096765745f7472656528292e6765745f726f6f7428292e63616c6c5f",
        "646566657272656428226164645f6368696c64222c5f5f636c290a00",
    ];
    from_hex(&parts)
}

fn expected_no_patches() -> Vec<u8> {
    let parts: [&str; 24] = [
        "4744504301000000030000000500000001000000000102030405060708090a0b0c0d0e0f101112131415161718191a1b",
        "1c1d1e1f202122232425262728292a2b2c2d2e2f303132333435363738393a3b3c3d3e3f07000000120000007265733a",
        "2f2f506c617965722e676400000000020000000000009300000000000000d41d8cd98f00b204e9800998ecf8427e0f00",
        "00007265733a2f2f776561706f6e2e676494020000000000006000000000000000d41d8cd98f00b204e9800998ecf842",
        "7e150000007265733a2f2f4d656e755f746573742e7473636e00f402000000000000be00000000000000d41d8cd98f00",
        "b204e9800998ecf8427e170000007265733a2f2f47656e6572616c5f4d656e752e7473636eb403000000000000230000",
        "0000000000d41d8cd98f00b204e9800998ecf8427e100000007265733a2f2f55492e67640000000000d8030000000000",
        "007100000000000000d41d8cd98f00b204e9800998ecf8427e0f0000007265733a2f2f6f746865722e62696e4c040000",
        "000000000900000000000000d41d8cd98f00b204e9800998ecf8427e100000007265733a2f2f506c61ff7965722e6764",
        "58040000000000000e00000000000000d41d8cd98f00b204e9800998ecf8427e00000000000000000000000000000000",
        "0000000000000000000000000000000000000000000000000000000000000000657874656e647320580a66756e63205f",
        "726561647928293a0a09706173730a66756e63205f706879736963735f70726f636573732864656c7461293a0a09706c",
        "617965725f766965772e666f76203d20777261706628706c617965725f766965772e666f762c20342c20313230290a09",
        "78203d20777261706628706c617965725f766965772e666f762c20342c20313630290a000909706c617965725f776561",
        "706f6e2e7472616e73666f726d2e6f726967696e2e78203d206c65727028706c617965725f776561706f6e2e7472616e",
        "73666f726d2e6f726967696e2e782c202d20302e3133352c2035202a2064656c7461290a5b6e6f6465206e616d653d22",
        "464f562220747970653d2248536c696465722220706172656e743d2253657474696e67732f47726964436f6e7461696e",
        "65722f50616e656c436f6e7461696e65722f56426f78436f6e7461696e6572225d0a5b6e6f6465206e616d653d224741",
        "4d4d412220747970653d2248536c696465722220706172656e743d2253657474696e67732f47726964436f6e7461696e",
        "65722f50616e656c436f6e7461696e65722f56426f78436f6e7461696e6572225d0a00006d61785f76616c7565203d20",
        "3136302e300a6d61785f76616c7565203d203136302e3000636f6e7374204845414c5448203d20310a636f6e73742044",
        "45415448203d20320a66756e63205f726561647928293a0a09706173730a096865616c74685f746578747572652e7465",
        "78747572652e667073203d20636c616d7028313030202d206865616c74682c2032342c20313030290a00000000010262",
        "696e61727900000066756e63205f726561647928293a0000",
    ];
    from_hex(&parts)
}

fn expected_some_patches() -> Vec<u8> {
    let parts: [&str; 60] = [
        "4744504301000000030000000500000001000000000102030405060708090a0b0c0d0e0f101112131415161718191a1b",
        "1c1d1e1f202122232425262728292a2b2c2d2e2f303132333435363738393a3b3c3d3e3f07000000120000007265733a",
        "2f2f506c617965722e676400000000020000000000005005000000000000d41d8cd98f00b204e9800998ecf8427e0f00",
        "00007265733a2f2f776561706f6e2e676450070000000000006000000000000000d41d8cd98f00b204e9800998ecf842",
        "7e150000007265733a2f2f4d656e755f746573742e7473636e00b007000000000000be00000000000000d41d8cd98f00",
        "b204e9800998ecf8427e170000007265733a2f2f47656e6572616c5f4d656e752e7473636e7008000000000000230000",
        "0000000000d41d8cd98f00b204e9800998ecf8427e100000007265733a2f2f55492e6764000000000094080000000000",
        "007100000000000000d41d8cd98f00b204e9800998ecf8427e0f0000007265733a2f2f6f746865722e62696e08090000",
        "000000000900000000000000d41d8cd98f00b204e9800998ecf8427e100000007265733a2f2f506c61ff7965722e6764",
        "14090000000000001302000000000000d41d8cd98f00b204e9800998ecf8427e00000000000000000000000000000000",
        "0000000000000000000000000000000000000000000000000000000000000000657874656e647320580a66756e63205f",
        "726561647928293a0a0976617220636c3d43616e7661734c617965722e6e657728290a09636c2e6e616d653d22537065",
        "656443616e766173220a0976617220736c3d4c6162656c2e6e657728290a09736c2e6e616d653d2253706565644c6162",
        "656c220a09736c2e6164645f636f6c6f725f6f766572726964652822666f6e745f636f6c6f72222c20436f6c6f722831",
        "2c312c3029290a09636c2e6164645f6368696c6428736c290a096765745f7472656528292e6765745f726f6f7428292e",
        "63616c6c5f646566657272656428226164645f6368696c64222c20636c290a0a09766172205f5f636c3d43616e766173",
        "4c617965722e6e657728290a095f5f636c2e6e616d653d2243454f43616e766173220a097661722063723d436f6c6f72",
        "526563742e6e657728290a0963722e6e616d653d225472697052656374220a0963722e6d6f7573655f66696c7465723d",
        "320a0963722e616e63686f725f72696768743d312e300a0963722e616e63686f725f626f74746f6d3d312e300a097661",
        "72206d61743d43616e7661734974656d4d6174657269616c2e6e657728290a096d61742e626c656e645f6d6f64653d31",
        "0a0963722e6d6174657269616c3d6d61740a095f5f636c2e6164645f6368696c64286372290a096765745f7472656528",
        "292e6765745f726f6f7428292e63616c6c5f646566657272656428226164645f6368696c64222c5f5f636c290a0a0970",
        "6173730a66756e63205f706879736963735f70726f636573732864656c7461293a0a0976617220636c3d6765745f7472",
        "656528292e6765745f726f6f7428292e6765745f6e6f64655f6f725f6e756c6c2822537065656443616e76617322290a",
        "09696620636c20213d206e756c6c3a0a090976617220736c3d636c2e6765745f6e6f64655f6f725f6e756c6c28225370",
        "6565644c6162656c22290a0909696620736c20213d206e756c6c3a0a090909736c2e74657874203d202253504545443a",
        "2022202b2073747228696e7428706c617965725f76656c6f636974792e6c656e677468282929290a0909097661722076",
        "705f73697a65203d206765745f76696577706f727428292e73697a650a090909736c2e726563745f706f736974696f6e",
        "203d20566563746f72322876705f73697a652e78202f20322e30202d20736c2e726563745f73697a652e78202f20322e",
        "302c2076705f73697a652e79202d203330290a0a096966206e6f742073656c662e6861735f6d657461282263656f5f74",
        "22293a2073656c662e7365745f6d657461282263656f5f74222c20302e30290a097661722063656f5f74203d2073656c",
        "662e6765745f6d657461282263656f5f742229202b2064656c74610a0973656c662e7365745f6d657461282263656f5f",
        "74222c2063656f5f74290a09766172205f5f636c5f6e6f64653d6765745f7472656528292e6765745f726f6f7428292e",
        "6765745f6e6f64655f6f725f6e756c6c282243454f43616e76617322290a096966205f5f636c5f6e6f64653a0a090976",
        "6172205f5f74723d5f5f636c5f6e6f64652e6765745f6e6f64655f6f725f6e756c6c2822547269705265637422290a09",
        "096966205f5f74723a0a0909095f5f74722e636f6c6f723d436f6c6f722873696e2863656f5f742a352e30292a302e35",
        "2b302e352c73696e2863656f5f742a362e30292a302e352b302e352c73696e2863656f5f742a372e30292a302e352b30",
        "2e352c302e3135290a0a09706c617965725f766965772e666f76203d20777261706628706c617965725f766965772e66",
        "6f762c20342c20313230290a0978203d20777261706628706c617965725f766965772e666f762c20342c20313630290a",
        "0909706c617965725f776561706f6e2e7472616e73666f726d2e6f726967696e2e78203d206c65727028706c61796572",
        "5f776561706f6e2e7472616e73666f726d2e6f726967696e2e782c202d20302e3133352c2035202a2064656c7461290a",
        "5b6e6f6465206e616d653d22464f562220747970653d2248536c696465722220706172656e743d2253657474696e6773",
        "2f47726964436f6e7461696e65722f50616e656c436f6e7461696e65722f56426f78436f6e7461696e6572225d0a5b6e",
        "6f6465206e616d653d2247414d4d412220747970653d2248536c696465722220706172656e743d2253657474696e6773",
        "2f47726964436f6e7461696e65722f50616e656c436f6e7461696e65722f56426f78436f6e7461696e6572225d0a0000",
        "6d61785f76616c7565203d203136302e300a6d61785f76616c7565203d203136302e3000636f6e7374204845414c5448",
        "203d20310a636f6e7374204445415448203d20320a66756e63205f726561647928293a0a09706173730a096865616c74",
        "685f746578747572652e746578747572652e667073203d20636c616d7028313030202d206865616c74682c2032342c20",
        "313030290a00000000010262696e61727900000066756e63205f726561647928293a0a0976617220636c3d43616e7661",
        "734c617965722e6e657728290a09636c2e6e616d653d22537065656443616e766173220a0976617220736c3d4c616265",
        "6c2e6e657728290a09736c2e6e616d653d2253706565644c6162656c220a09736c2e6164645f636f6c6f725f6f766572",
        "726964652822666f6e745f636f6c6f72222c20436f6c6f7228312c312c3029290a09636c2e6164645f6368696c642873",
        "6c290a096765745f7472656528292e6765745f726f6f7428292e63616c6c5f646566657272656428226164645f636869",
        "6c64222c20636c290a0a09766172205f5f636c3d43616e7661734c617965722e6e657728290a095f5f636c2e6e616d65",
        "3d2243454f43616e766173220a097661722063723d436f6c6f72526563742e6e657728290a0963722e6e616d653d2254",
        "72697052656374220a0963722e6d6f7573655f66696c7465723d320a0963722e616e63686f725f72696768743d312e30",
        "0a0963722e616e63686f725f626f74746f6d3d312e300a09766172206d61743d43616e7661734974656d4d6174657269",
        "616c2e6e657728290a096d61742e626c656e645f6d6f64653d310a0963722e6d6174657269616c3d6d61740a095f5f63",
        "6c2e6164645f6368696c64286372290a096765745f7472656528292e6765745f726f6f7428292e63616c6c5f64656665",
        "7272656428226164645f6368696c64222c5f5f636c290a00",
    ];
    from_hex(&parts)
}

fn rewritten(archive: &[u8], flags: &[u8], fov: &str) -> Vec<u8> {
    let opts = decode_flags(flags).expect("flags");
    match patch_pck(archive, &opts, fov.as_bytes()) {
        PckRewrite::Rewritten(out) => out,
        PckRewrite::NotPck => panic!("not a pck"),
        PckRewrite::Failed => panic!("failed"),
    }
}

#[test]
fn rewrite_with_every_patch_gives_expected_archive() {
    assert_eq!(rewritten(&sample_archive(), b"111113", "200"), expected_all_patches());
}

#[test]
fn rewrite_without_patches_gives_expected_archive() {
    assert_eq!(rewritten(&sample_archive(), b"000001", "120"), expected_no_patches());
}

#[test]
fn rewrite_with_some_patches_gives_expected_archive() {
    assert_eq!(rewritten(&sample_archive(), b"010107", "200"), expected_some_patches());
}

#[test]
fn rewritten_archive_reads_back() {
    let out = rewritten(&sample_archive(), b"111113", "200");
    let before = match parse_index(&sample_archive()) {
        PckParse::Parsed(i) => i,
        _ => panic!("sample must parse"),
    };
    let after = match parse_index(&out) {
        PckParse::Parsed(i) => i,
        _ => panic!("rewritten archive must parse"),
    };
    assert_eq!(after.version, before.version);
    assert_eq!(after.engine_major, before.engine_major);
    assert_eq!(after.engine_minor, before.engine_minor);
    assert_eq!(after.engine_patch, before.engine_patch);
    assert_eq!(after.reserved, before.reserved);
    assert_eq!(after.entries.len(), before.entries.len());
    for (a, b) in after.entries.iter().zip(before.entries.iter()) {
        assert_eq!(a.path, b.path);
        assert_eq!(a.offset % 4, 0);
    }
    assert_eq!(after.entries[0].offset % 64, 0);
    // The unrelated file keeps its bytes.
    let other = &after.entries[5];
    let start = other.offset as usize;
    assert_eq!(&out[start..start + other.size as usize], b"\x00\x01\x02binary");
}

#[test]
fn rewrite_without_patches_keeps_every_file() {
    let archive = sample_archive();
    let out = rewritten(&archive, b"000001", "120");
    let before = match parse_index(&archive) {
        PckParse::Parsed(i) => i,
        _ => panic!("sample must parse"),
    };
    let after = match parse_index(&out) {
        PckParse::Parsed(i) => i,
        _ => panic!("rewritten archive must parse"),
    };
    for (a, b) in after.entries.iter().zip(before.entries.iter()) {
        let old = &archive[b.offset as usize..(b.offset + b.size) as usize];
        let new = &out[a.offset as usize..(a.offset + a.size) as usize];
        assert_eq!(old, new);
    }
}

#[test]
fn rewrite_refuses_other_files() {
    let opts = decode_flags(b"000001").unwrap();
    assert!(matches!(patch_pck(b"NOPE and more bytes", &opts, b"120"), PckRewrite::NotPck));
}

#[test]
fn rewrite_fails_on_truncated_archives() {
    let opts = decode_flags(b"000001").unwrap();
    assert!(matches!(patch_pck(b"GD", &opts, b"120"), PckRewrite::Failed));
    let archive = sample_archive();
    assert!(matches!(patch_pck(&archive[..50], &opts, b"120"), PckRewrite::Failed));
    assert!(matches!(patch_pck(&archive[..100], &opts, b"120"), PckRewrite::Failed));
}

#[test]
fn rewrite_fails_on_negative_offset() {
    let mut archive = sample_archive();
    // First record: path length at 88, path of 18 bytes, then the offset.
    let at = 88 + 4 + 18;
    archive[at..at + 8].copy_from_slice(&(-5i64).to_le_bytes());
    let opts = decode_flags(b"000001").unwrap();
    assert!(matches!(patch_pck(&archive, &opts, b"120"), PckRewrite::Failed));
}

#[test]
fn rewrite_reads_to_end_on_size_minus_one() {
    let mut archive = sample_archive();
    let at = 88 + 4 + 18 + 8;
    archive[at..at + 8].copy_from_slice(&(-1i64).to_le_bytes());
    let opts = decode_flags(b"000001").unwrap();
    let out = match patch_pck(&archive, &opts, b"120") {
        PckRewrite::Rewritten(out) => out,
        _ => panic!("must rewrite"),
    };
    let after = match parse_index(&out) {
        PckParse::Parsed(i) => i,
        _ => panic!("must parse"),
    };
    let before = match parse_index(&archive) {
        PckParse::Parsed(i) => i,
        _ => panic!("must parse"),
    };
    assert_eq!(after.entries[0].size as usize, archive.len() - before.entries[0].offset as usize);
}

#[test]
fn rewrite_fails_on_size_below_minus_one() {
    let mut archive = sample_archive();
    let at = 88 + 4 + 18 + 8;
    archive[at..at + 8].copy_from_slice(&(-2i64).to_le_bytes());
    let opts = decode_flags(b"000001").unwrap();
    assert!(matches!(patch_pck(&archive, &opts, b"120"), PckRewrite::Failed));
}

#[test]
fn empty_archive_rewrites_to_header_and_padding() {
    let mut archive = Vec::new();
    archive.extend_from_slice(&0x43504447u32.to_le_bytes());
    for v in [2u32, 3, 4, 5] {
        archive.extend_from_slice(&v.to_le_bytes());
    }
    archive.extend_from_slice(&[7u8; 64]);
    archive.extend_from_slice(&0u32.to_le_bytes());
    let opts = decode_flags(b"000001").unwrap();
    match patch_pck(&archive, &opts, b"120") {
        PckRewrite::Rewritten(out) => {
            assert_eq!(out.len(), 128);
            assert_eq!(&out[..88], &archive[..]);
            assert!(out[88..].iter().all(|b| *b == 0));
        }
        _ => panic!("must rewrite"),
    }
}

#[test]
fn flags_round_trip() {
    let o = PatchOptions {
        apply_parkinson: true,
        apply_ceo: false,
        apply_dwbt: true,
        apply_ishowspeed: false,
        apply_ui: true,
        num_frames: 42,
    };
    let f = encode_flags(&o);
    assert_eq!(f, b"1010142".to_vec());
    assert_eq!(decode_flags(&f), Some(o));
}

#[test]
fn flags_decoding_edge_cases() {
    assert_eq!(decode_flags(b"11111"), None);
    assert_eq!(decode_flags(b"11111x"), None);
    assert_eq!(decode_flags(b"111112x"), None);
    assert_eq!(decode_flags(b"x1y1z007").map(|o| (o.apply_parkinson, o.apply_ceo, o.num_frames)), Some((false, true, 7)));
    assert_eq!(decode_flags(b"0000099999999999999999999999"), None);
}

#[test]
fn decimal_text() {
    assert_eq!(decimal_bytes(0), b"0".to_vec());
    assert_eq!(decimal_bytes(7), b"7".to_vec());
    assert_eq!(decimal_bytes(1234567), b"1234567".to_vec());
    assert_eq!(parse_decimal(b"0042"), Some(42));
    assert_eq!(parse_decimal(b""), None);
    assert_eq!(parse_decimal(b"4a"), None);
    assert_eq!(parse_decimal(&decimal_bytes(usize::MAX)), Some(usize::MAX));
    assert_eq!(parse_decimal(b"99999999999999999999999"), None);
}
